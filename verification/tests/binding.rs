use pebble::binding::{first_duplicate_binding, BindGroupLayoutBuilder, BindingEntry, BindingKind, StorageTextureAccess, TextureViewDimension};
use pebble::flags::ShaderStages;
use pebble::texture_format::TextureFormat;

#[test]
fn visibility_reports_back_exactly_what_each_constructor_was_given() {
    let stages = ShaderStages::vertex_fragment();
    assert!(BindingKind::texture_2d(stages).visibility() == stages);
    assert!(BindingKind::sampler(stages).visibility() == stages);
    assert!(BindingKind::uniform_buffer(stages).visibility() == stages);
    assert!(BindingKind::storage_buffer_read_only(ShaderStages::compute()).visibility() == ShaderStages::compute());
    assert!(BindingKind::storage_buffer_read_write(ShaderStages::compute()).visibility() == ShaderStages::compute());
}

#[test]
fn dynamic_storage_buffer_picks_read_only_or_read_write_by_flag() {
    let read_only = BindingKind::dynamic_storage_buffer(ShaderStages::compute(), 16, true);
    let read_write = BindingKind::dynamic_storage_buffer(ShaderStages::compute(), 16, false);
    assert!(matches!(read_only, BindingKind::StorageBufferReadOnly { .. }));
    assert!(matches!(read_write, BindingKind::StorageBufferReadWrite { .. }));
}

#[test]
fn unique_bindings_build_without_panicking() {
    let builder = BindGroupLayoutBuilder::new()
        .with_entry("a", 0, BindingKind::texture_2d(ShaderStages::fragment()))
        .with_entry("b", 1, BindingKind::sampler(ShaderStages::fragment()));
    assert!(builder.check_bindings().is_ok());
}

#[test]
fn two_entries_claiming_the_same_binding_panics() {
    let builder = BindGroupLayoutBuilder::new()
        .with_entry("a", 0, BindingKind::texture_2d(ShaderStages::fragment()))
        .with_entry("b", 0, BindingKind::sampler(ShaderStages::fragment()));
    let result = builder.check_bindings();
    assert!(result.is_err(), "expected an error for a duplicate @binding(0)");
    let d = result.unwrap_err();
    assert_eq!(d.binding, 0);
    assert_eq!(d.entry, "b");
}

#[test]
fn every_constructor_keeps_its_visibility() {
    let v = ShaderStages::vertex();
    assert!(BindingKind::texture_2d_array(v).visibility() == v);
    assert!(BindingKind::texture_cubemap(v).visibility() == v);
    assert!(BindingKind::comparison_sampler(v).visibility() == v);
    assert!(BindingKind::dynamic_uniform_buffer(v, 32).visibility() == v);
    assert!(
        BindingKind::storage_texture(v, TextureFormat::Rgba8Unorm, StorageTextureAccess::WriteOnly, TextureViewDimension::D2)
            .visibility()
            == v
    );
}

#[test]
fn dynamic_uniform_buffer_records_its_element_size() {
    match BindingKind::dynamic_uniform_buffer(ShaderStages::vertex(), 48) {
        BindingKind::UniformBuffer { has_dynamic_offset, min_binding_size, .. } => {
            assert!(has_dynamic_offset);
            assert_eq!(min_binding_size, Some(48));
        }
        other => panic!("unexpected kind {other:?}"),
    }
}

#[test]
fn the_first_repeated_binding_is_reported() {
    let entries = vec![
        BindingEntry { name: "a", binding: 0, kind: BindingKind::sampler(ShaderStages::fragment()) },
        BindingEntry { name: "b", binding: 1, kind: BindingKind::sampler(ShaderStages::fragment()) },
        BindingEntry { name: "c", binding: 1, kind: BindingKind::sampler(ShaderStages::fragment()) },
        BindingEntry { name: "d", binding: 0, kind: BindingKind::sampler(ShaderStages::fragment()) },
    ];
    let d = first_duplicate_binding(&entries).unwrap_err();
    assert_eq!((d.binding, d.entry), (1, "c"));
}

#[test]
fn with_entries_appends_in_order_and_keeps_the_label() {
    let builder = BindGroupLayoutBuilder::new()
        .with_label(Some("layout"))
        .with_entry("a", 0, BindingKind::sampler(ShaderStages::fragment()))
        .with_entries(vec![BindingEntry { name: "b", binding: 3, kind: BindingKind::sampler(ShaderStages::fragment()) }]);
    assert_eq!(builder.label(), Some("layout"));
    let names: Vec<&str> = builder.entries().iter().map(|e| e.name).collect();
    assert_eq!(names, vec!["a", "b"]);
}

#[test]
fn a_checked_layout_builds_from_its_label_and_entries() {
    let builder = BindGroupLayoutBuilder::new()
        .with_label(Some("lights"))
        .with_entry("a", 0, BindingKind::uniform_buffer(ShaderStages::fragment()))
        .with_entry("b", 1, BindingKind::sampler(ShaderStages::fragment()));
    assert!(builder.check_bindings().is_ok());
    let (label, entries) = builder.build_raw();
    assert_eq!(label, Some("lights"));
    assert_eq!(entries.iter().map(|e| (e.name, e.binding)).collect::<Vec<_>>(), vec![("a", 0), ("b", 1)]);
}
