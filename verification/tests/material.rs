use pebble::binding::{BindingEntry, BindingKind};
use pebble::flags::ShaderStages;
use pebble::layout::{check_bind_group_count, GlobalLayoutPool, GroupEntry};
use pebble::limits::DeviceLimits;
use pebble::material::{build_material_raw, check_material_limits, default_target, validate_material, BlendState, Face, MaterialBuilder, MaterialError, MaterialLimitError, MaterialWarning, PolygonMode};
use pebble::vertex_format::{VertexAttribute, VertexBufferLayout, VertexFormat, VertexStepMode};

const MINIMAL_SHADER: &str = "@vertex fn vs_main() -> @builtin(position) vec4<f32> { return vec4<f32>(0.0); }";

fn limits() -> DeviceLimits {
    DeviceLimits {
        max_buffer_size: 1 << 28,
        max_uniform_buffer_binding_size: 64 << 10,
        max_storage_buffer_binding_size: 128 << 20,
        min_uniform_buffer_offset_alignment: 256,
        min_storage_buffer_offset_alignment: 256,
        max_bind_groups: 4,
        max_vertex_buffers: 8,
        max_vertex_attributes: 16,
        max_color_attachments: 8,
        max_texture_dimension_2d: 8192,
    }
}

#[test]
fn a_compute_visible_own_entry_panics_before_touching_the_device() {
    let desc = MaterialBuilder::<u32>::new(MINIMAL_SHADER)
        .with_entries(vec![GroupEntry::Own(vec![BindingEntry {
            name: "bad",
            binding: 0,
            kind: BindingKind::storage_buffer_read_write(ShaderStages::compute()),
        }])])
        .with_targets(vec![default_target()])
        .build();
    let result = validate_material(&limits(), &desc);
    assert!(result.is_err(), "expected an error for a COMPUTE-visible material entry");
    assert!(matches!(result.unwrap_err(), MaterialError::ComputeVisibleEntry { entry: "bad" }));
}

#[test]
fn material_no_entries_at_all_builds_without_panicking() {
    let desc = MaterialBuilder::<u32>::new(MINIMAL_SHADER).with_targets(vec![default_target()]).build();
    assert!(validate_material(&limits(), &desc).unwrap().is_none());
    let pool = GlobalLayoutPool::new();
    let own = 0u32;
    assert_eq!(build_material_raw(&limits(), &desc, &own, &pool).unwrap().len(), 0);
}

#[test]
fn material_a_layout_pulled_from_the_global_pool_ends_up_in_the_pipeline_layout() {
    let mut pool = GlobalLayoutPool::new();
    pool.register("camera", 7u32);
    let desc = MaterialBuilder::new(MINIMAL_SHADER)
        .with_entries(vec![GroupEntry::Layout(*pool.get("camera").unwrap())])
        .with_targets(vec![default_target()])
        .build();
    assert!(validate_material(&limits(), &desc).is_ok());
    let own = 0u32;
    let slots = build_material_raw(&limits(), &desc, &own, &pool).unwrap();
    assert_eq!(slots, vec![&7u32]);
}

#[test]
fn material_a_global_entry_resolves_from_the_pool_at_build_time() {
    let mut pool = GlobalLayoutPool::new();
    pool.register("camera", 7u32);
    let desc = MaterialBuilder::new(MINIMAL_SHADER)
        .with_entries(vec![GroupEntry::Global("camera")])
        .with_targets(vec![default_target()])
        .build();
    assert!(validate_material(&limits(), &desc).is_ok());
    let own = 0u32;
    let slots = build_material_raw(&limits(), &desc, &own, &pool).unwrap();
    assert_eq!(slots, vec![&7u32]);
}

#[test]
fn material_a_global_entry_not_yet_registered_returns_none_instead_of_panicking() {
    let pool: GlobalLayoutPool<u32> = GlobalLayoutPool::new();
    let desc = MaterialBuilder::new(MINIMAL_SHADER)
        .with_entries(vec![GroupEntry::Global("camera")])
        .with_targets(vec![default_target()])
        .build();
    assert!(validate_material(&limits(), &desc).is_ok());
    let own = 0u32;
    assert!(build_material_raw(&limits(), &desc, &own, &pool).is_none());
}

#[test]
fn material_own_and_layout_groups_are_ordered_by_position() {
    let pool: GlobalLayoutPool<u32> = GlobalLayoutPool::new();
    let desc = MaterialBuilder::new(MINIMAL_SHADER)
        .with_entries(vec![GroupEntry::Own(vec![]), GroupEntry::Layout(3u32)])
        .with_targets(vec![default_target()])
        .build();
    assert!(validate_material(&limits(), &desc).unwrap().is_some());
    let own = 9u32;
    let slots = build_material_raw(&limits(), &desc, &own, &pool).unwrap();
    assert_eq!(slots, vec![&9u32, &3u32]);
}

#[test]
fn material_more_than_one_own_group_panics() {
    let desc = MaterialBuilder::<u32>::new(MINIMAL_SHADER)
        .with_entries(vec![GroupEntry::Own(vec![]), GroupEntry::Own(vec![])])
        .with_targets(vec![default_target()])
        .build();
    let result = validate_material(&limits(), &desc);
    assert!(result.is_err(), "expected an error for more than one Own group");
    assert!(matches!(result.unwrap_err(), MaterialError::MultipleOwnGroups(e) if e.first == 0 && e.second == 1));
}

#[test]
fn material_exceeding_max_bind_groups_panics() {
    let groups: Vec<GroupEntry<u32>> = (0..5).map(GroupEntry::Layout).collect();
    let desc = MaterialBuilder::new(MINIMAL_SHADER).with_entries(groups).with_targets(vec![default_target()]).build();
    assert!(validate_material(&limits(), &desc).is_ok());
    let result = check_bind_group_count(desc.entries().len(), limits().max_bind_groups);
    assert!(result.is_err(), "expected an error for exceeding max_bind_groups");
}

#[test]
fn exceeding_max_vertex_buffers_panics() {
    let too_many = limits().max_vertex_buffers + 1;
    let layouts: Vec<VertexBufferLayout> = (0..too_many)
        .map(|_| VertexBufferLayout { array_stride: 4, step_mode: VertexStepMode::Vertex, attributes: vec![] })
        .collect();
    let desc = MaterialBuilder::<u32>::new(MINIMAL_SHADER).with_vertex_layouts(layouts).with_targets(vec![default_target()]).build();
    let result = validate_material(&limits(), &desc);
    assert!(result.is_err(), "expected an error for exceeding max_vertex_buffers");
    assert!(matches!(
        result.unwrap_err(),
        MaterialError::Limits(MaterialLimitError::TooManyVertexBuffers { count: 9, max: 8 })
    ));
}

#[test]
fn exceeding_max_vertex_attributes_panics() {
    let too_many = limits().max_vertex_attributes + 1;
    let attributes: Vec<VertexAttribute> =
        (0..too_many).map(|i| VertexAttribute { format: VertexFormat::Float32, offset: 0, shader_location: i }).collect();
    let desc = MaterialBuilder::<u32>::new(MINIMAL_SHADER)
        .with_vertex_layouts(vec![VertexBufferLayout { array_stride: 4, step_mode: VertexStepMode::Vertex, attributes }])
        .with_targets(vec![default_target()])
        .build();
    let result = validate_material(&limits(), &desc);
    assert!(result.is_err(), "expected an error for exceeding max_vertex_attributes");
    assert!(matches!(
        result.unwrap_err(),
        MaterialError::Limits(MaterialLimitError::TooManyVertexAttributes { count: 17, max: 16 })
    ));
}

#[test]
fn exceeding_max_color_attachments_panics() {
    let too_many = limits().max_color_attachments + 1;
    let targets = (0..too_many).map(|_| default_target()).collect();
    let desc = MaterialBuilder::<u32>::new(MINIMAL_SHADER).with_targets(targets).build();
    let result = validate_material(&limits(), &desc);
    assert!(result.is_err(), "expected an error for exceeding max_color_attachments");
    assert!(matches!(
        check_material_limits(&limits(), &desc),
        Err(MaterialLimitError::TooManyColorTargets { count: 9, max: 8 })
    ));
}

#[test]
fn attributes_are_summed_across_every_vertex_buffer() {
    let attrs = |n: u32| (0..n).map(|i| VertexAttribute { format: VertexFormat::Float32, offset: 0, shader_location: i }).collect();
    let desc = MaterialBuilder::<u32>::new(MINIMAL_SHADER)
        .with_vertex_layouts(vec![
            VertexBufferLayout { array_stride: 4, step_mode: VertexStepMode::Vertex, attributes: attrs(10) },
            VertexBufferLayout { array_stride: 4, step_mode: VertexStepMode::Instance, attributes: attrs(7) },
        ])
        .build();
    assert!(matches!(
        check_material_limits(&limits(), &desc),
        Err(MaterialLimitError::TooManyVertexAttributes { count: 17, max: 16 })
    ));
}

#[test]
fn two_own_entries_on_one_binding_are_refused() {
    let entry = |name| BindingEntry { name, binding: 2, kind: BindingKind::sampler(ShaderStages::fragment()) };
    let desc = MaterialBuilder::<u32>::new(MINIMAL_SHADER)
        .with_entries(vec![GroupEntry::Own(vec![entry("a"), entry("b")])])
        .with_targets(vec![default_target()])
        .build();
    assert!(matches!(validate_material(&limits(), &desc), Err(MaterialError::DuplicateBinding(d)) if d.binding == 2 && d.entry == "b"));
}

#[test]
fn a_new_material_has_the_documented_defaults() {
    let m = MaterialBuilder::<u32>::new(MINIMAL_SHADER).build();
    assert_eq!(m.vertex_entry(), Some("vs_main"));
    assert_eq!(m.fragment_entry(), Some("fs_main"));
    assert_eq!(m.cull_mode(), Some(Face::Back));
    assert_eq!(m.polygon_mode(), PolygonMode::Fill);
    assert_eq!(m.sample_count(), 1);
    assert!(m.targets().is_empty());
    assert_eq!(MaterialBuilder::<u32>::new(MINIMAL_SHADER).validate(), Some(MaterialWarning::NoColorTargets));
}

#[test]
fn setters_replace_only_their_field() {
    let m = MaterialBuilder::<u32>::new(MINIMAL_SHADER)
        .with_label("sky")
        .without_cull_mode()
        .with_polygon_mode(PolygonMode::Line)
        .with_sample_count(4)
        .without_vertex_entry()
        .build();
    assert_eq!(m.label(), Some("sky"));
    assert_eq!(m.cull_mode(), None);
    assert_eq!(m.polygon_mode(), PolygonMode::Line);
    assert_eq!(m.sample_count(), 4);
    assert_eq!(m.vertex_entry(), None);
    assert_eq!(m.fragment_entry(), Some("fs_main"));
    assert_eq!(m.shader_source(), MINIMAL_SHADER);
}

#[test]
fn alpha_blending_blends_color_over_and_keeps_replace_distinct() {
    assert_ne!(BlendState::alpha_blending(), BlendState::replace());
    assert_eq!(default_target().blend, None);
    assert_eq!(default_target().format, pebble::texture_format::TextureFormat::Rgba8Unorm);
    assert_eq!(default_target().write_mask, pebble::flags::ColorWrites::all());
}
