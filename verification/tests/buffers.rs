use pebble::buffers::{align_to, check_buffer_size, BufferContents, dynamic_storage_offset_stride, dynamic_uniform_offset_stride, BindingSlots, BufferBuilder, BufferSizeError, DynamicBufferBuilder, DynamicBufferError};
use pebble::flags::BufferUsages;
use pebble::limits::DeviceLimits;

fn limits() -> DeviceLimits {
    DeviceLimits {
        max_buffer_size: 1 << 28,
        max_uniform_buffer_binding_size: 64 << 10,
        max_storage_buffer_binding_size: 128 << 20,
        min_uniform_buffer_offset_alignment: 256,
        min_storage_buffer_offset_alignment: 256,
        max_bind_groups: 4,
        max_vertex_buffers: 8,
        max_vertex_attributes: 16,
        max_color_attachments: 8,
        max_texture_dimension_2d: 8192,
    }
}

#[test]
fn a_size_within_every_limit_does_not_panic() {
    let builder = BufferBuilder::empty(64).uniform();
    assert!(builder.check(&limits()).is_ok());
}

#[test]
fn exceeding_max_buffer_size_panics() {
    let too_big = limits().max_buffer_size + 1;
    let result = BufferBuilder::empty(too_big).usage(BufferUsages::copy_dst()).check(&limits());
    assert!(result.is_err(), "expected an error for a size exceeding max_buffer_size");
    assert_eq!(result.unwrap_err(), BufferSizeError::ExceedsMaxBufferSize { size: too_big, max: limits().max_buffer_size });
}

#[test]
fn exceeding_max_uniform_buffer_binding_size_panics() {
    let too_big = limits().max_uniform_buffer_binding_size + 1;
    let result = BufferBuilder::empty(too_big).uniform().check(&limits());
    assert!(result.is_err(), "expected an error for a size exceeding max_uniform_buffer_binding_size");
    assert!(matches!(result.unwrap_err(), BufferSizeError::ExceedsMaxUniformBindingSize { .. }));
}

#[test]
fn exceeding_max_uniform_buffer_binding_size_is_fine_for_a_non_uniform_buffer() {
    let l = limits();
    let big = (l.max_uniform_buffer_binding_size + 1).min(l.max_buffer_size);
    assert!(BufferBuilder::empty(big).usage(BufferUsages::copy_dst()).check(&l).is_ok());
}

#[test]
fn dynamic_buffer_write_element_does_not_panic_and_reports_its_own_sizing() {
    let element_size = 16u64;
    let count = 4u64;
    let plan = DynamicBufferBuilder::uniform(element_size, count).plan(&limits()).unwrap();
    assert_eq!(plan.element_size, element_size);
    assert_eq!(plan.stride, 256);
    assert!(plan.stride >= plan.element_size, "stride is alignment-padded, never smaller than the element");
    // The last element ends inside the buffer.
    assert!(plan.element_offset(count - 1) + element_size <= plan.size);
}

#[test]
fn align_to_rounds_up_to_the_next_multiple() {
    assert_eq!(align_to(0, 256), Some(0));
    assert_eq!(align_to(1, 256), Some(256));
    assert_eq!(align_to(256, 256), Some(256));
    assert_eq!(align_to(257, 256), Some(512));
    assert_eq!(align_to(u64::MAX, 256), None);
}

#[test]
fn offset_strides_use_the_matching_alignment() {
    let mut l = limits();
    l.min_storage_buffer_offset_alignment = 64;
    assert_eq!(dynamic_uniform_offset_stride(&l, 100), Some(256));
    assert_eq!(dynamic_storage_offset_stride(&l, 100), Some(128));
}

#[test]
fn storage_buffers_meet_the_storage_binding_limit() {
    let mut l = limits();
    l.max_storage_buffer_binding_size = 1024;
    let e = check_buffer_size(&l, BufferUsages::storage(), 2048).unwrap_err();
    assert_eq!(e, BufferSizeError::ExceedsMaxStorageBindingSize { size: 2048, max: 1024 });
    assert!(check_buffer_size(&l, BufferUsages::vertex(), 2048).is_ok());
}

#[test]
fn a_dynamic_buffer_too_big_for_its_binding_is_refused() {
    let result = DynamicBufferBuilder::uniform(16, 1000).plan(&limits());
    assert_eq!(
        result.unwrap_err(),
        DynamicBufferError::Size(BufferSizeError::ExceedsMaxUniformBindingSize { size: 256_000, max: 64 << 10 })
    );
    let overflow = DynamicBufferBuilder::storage(16, u64::MAX).plan(&limits());
    assert_eq!(overflow.unwrap_err(), DynamicBufferError::SizeOverflow);
}

#[test]
fn a_dynamic_storage_buffer_is_storage_and_copy_dst() {
    let plan = DynamicBufferBuilder::storage(300, 2).label(Some("lights")).plan(&limits()).unwrap();
    assert_eq!(plan.usage, BufferUsages::storage() | BufferUsages::copy_dst());
    assert_eq!(plan.stride, 512);
    assert_eq!(plan.size, 1024);
}

#[test]
fn pushed_resources_take_the_next_free_binding() {
    let mut slots: BindingSlots<&str> = BindingSlots::new();
    assert_eq!(slots.push("a"), 0);
    slots.push_at(5, "b");
    assert_eq!(slots.push("c"), 6);
    let bindings: Vec<u32> = slots.entries().iter().map(|e| e.0).collect();
    assert_eq!(bindings, vec![0, 5, 6]);
}

#[test]
fn buffer_builders_remember_what_they_were_given() {
    let data = [1u8, 2, 3];
    let b = BufferBuilder::with_data(&data).label(Some("verts")).usage(BufferUsages::vertex());
    assert_eq!(b.size(), 3);
    assert_eq!(b.get_label(), Some("verts"));
    assert_eq!(b.get_usage(), BufferUsages::vertex());
    let s = BufferBuilder::empty(32).storage();
    assert!(s.get_usage().contains(BufferUsages::storage()));
}

#[test]
fn a_buffer_within_its_limits_builds_from_its_label_usage_and_contents() {
    let data = [1u8, 2, 3, 4];
    let builder = BufferBuilder::with_data(&data).label(Some("params")).uniform();
    assert!(builder.check(&limits()).is_ok());
    let (label, usage, contents) = builder.build_raw(&limits());
    assert_eq!(label, Some("params"));
    assert!(usage == (BufferUsages::uniform() | BufferUsages::copy_dst()));
    assert!(matches!(contents, BufferContents::Data(d) if *d == data));
}
