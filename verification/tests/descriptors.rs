use pebble::binding::{BindingEntry, BindingKind};
use pebble::cursor::{CursorGrabMode, CursorIcon};
use pebble::flags::{BufferUsages, ColorWrites, ShaderStages, TextureUsages};
use pebble::instance::{binding_index, owned_buffer_usage, BindingInstanceBuilder, BindingInstanceEntry, InstanceWarning};
use pebble::limits::DeviceLimits;
use pebble::material::CompareFunction;
use pebble::material_instance;
use pebble::render_bundle::{RenderBundleEncoderBuilder, RenderBundleWarning};
use pebble::render_pass::{DrawIndexedIndirectArgs, DrawIndirectArgs};
use pebble::samplers::{all_sampler_kinds, AddressMode, BorderColor, FilterMode, GlobalSamplers, LodClamp, SamplerKind};
use pebble::texture_format::TextureFormat;
use pebble::texture_view::RenderTargetTextureBuilder;

fn limits() -> DeviceLimits {
    DeviceLimits {
        max_buffer_size: 1 << 28,
        max_uniform_buffer_binding_size: 64 << 10,
        max_storage_buffer_binding_size: 128 << 20,
        min_uniform_buffer_offset_alignment: 256,
        min_storage_buffer_offset_alignment: 256,
        max_bind_groups: 4,
        max_vertex_buffers: 8,
        max_vertex_attributes: 16,
        max_color_attachments: 8,
        max_texture_dimension_2d: 8192,
    }
}

fn entry(name: &'static str, binding: u32) -> BindingEntry {
    BindingEntry { name, binding, kind: BindingKind::sampler(ShaderStages::fragment()) }
}

#[test]
fn sampler_descriptors_match_their_kind() {
    let repeat = SamplerKind::LinearRepeat.descriptor(true);
    assert_eq!(repeat.address_mode, AddressMode::Repeat);
    assert_eq!(repeat.min_filter, FilterMode::Linear);
    let no_mip = SamplerKind::LinearClampNoMip.descriptor(true);
    assert_eq!(no_mip.lod_clamp, LodClamp::BaseLevelOnly);
    let compare = SamplerKind::CompareLess.descriptor(true);
    assert_eq!(compare.compare, Some(CompareFunction::Less));
    let nearest = SamplerKind::Nearest.descriptor(false);
    assert_eq!((nearest.mag_filter, nearest.min_filter), (FilterMode::Nearest, FilterMode::Nearest));
    assert_eq!(nearest.address_mode, AddressMode::Repeat);
}

#[test]
fn the_border_sampler_falls_back_to_clamping_without_border_support() {
    let with = SamplerKind::NearestClampBorder.descriptor(true);
    assert_eq!(with.address_mode, AddressMode::ClampToBorder);
    assert_eq!(with.border_color, Some(BorderColor::OpaqueWhite));
    let without = SamplerKind::NearestClampBorder.descriptor(false);
    assert_eq!(without.address_mode, AddressMode::ClampToEdge);
    assert_eq!(without.border_color, None);
}

#[test]
fn every_sampler_kind_has_its_own_slot() {
    let kinds = all_sampler_kinds();
    assert_eq!(kinds.len(), 6);
    for (i, kind) in kinds.iter().enumerate() {
        assert_eq!(kind.index(), i);
    }
    let samplers = GlobalSamplers::new(vec!["a", "b", "c", "d", "e", "f"]);
    assert_eq!(*samplers.get(SamplerKind::NearestClampBorder), "e");
    assert_eq!(*samplers.get(SamplerKind::LinearRepeat), "a");
}

#[test]
fn indirect_arguments_are_little_endian_words_in_field_order() {
    let args = DrawIndirectArgs { vertex_count: 3, instance_count: 0x0102_0304, first_vertex: 0, first_instance: 255 };
    assert_eq!(
        args.as_bytes(),
        vec![3, 0, 0, 0, 4, 3, 2, 1, 0, 0, 0, 0, 255, 0, 0, 0]
    );
    let indexed = DrawIndexedIndirectArgs { index_count: 6, instance_count: 1, first_index: 0, base_vertex: -1, first_instance: 0 };
    let bytes = indexed.as_bytes();
    assert_eq!(bytes.len(), 20);
    assert_eq!(&bytes[12..16], &[0xff, 0xff, 0xff, 0xff]);
}

#[test]
fn flag_words_combine_and_test_bits() {
    let mut usage = BufferUsages::uniform();
    usage.insert(BufferUsages::copy_dst());
    assert!(usage.contains(BufferUsages::copy_dst()));
    assert!(usage.intersects(BufferUsages::uniform() | BufferUsages::storage()));
    assert!(!usage.contains(BufferUsages::storage()));
    assert_eq!(ShaderStages::vertex_fragment(), ShaderStages::vertex() | ShaderStages::fragment());
    assert_eq!(ColorWrites::all(), ColorWrites::red() | ColorWrites::green() | ColorWrites::blue() | ColorWrites::alpha());
    assert_eq!(TextureUsages::empty().bits(), 0);
}

#[test]
fn instance_names_resolve_to_the_targets_bindings() {
    let entries = vec![entry("albedo", 0), entry("sampler", 3), entry("albedo", 5)];
    assert_eq!(binding_index(&entries, "sampler"), Some(3));
    assert_eq!(binding_index(&entries, "albedo"), Some(0));
    assert_eq!(binding_index(&entries, "normal"), None);

    let instance = BindingInstanceBuilder::new(42)
        .with_texture("albedo", 7)
        .with_sampler("sampler", SamplerKind::LinearRepeat)
        .build();
    assert_eq!(instance.target(), 42);
    assert_eq!(instance.bindings(&entries), Some(vec![0, 3]));
    let unknown = BindingInstanceBuilder::new(42).with_uniform("missing", vec![1, 2]).build();
    assert_eq!(unknown.bindings(&entries), None);
}

#[test]
fn an_instance_without_params_is_warned_about() {
    assert_eq!(BindingInstanceBuilder::new(1).validate(), Some(InstanceWarning::NoParams));
    assert_eq!(BindingInstanceBuilder::new(1).with_cubemap("sky", 2).validate(), None);
}

#[test]
fn owned_buffers_get_their_binding_usage_plus_copies() {
    assert_eq!(
        owned_buffer_usage(&BindingInstanceEntry::Uniform(vec![0; 16])),
        Some(BufferUsages::uniform() | BufferUsages::copy_dst() | BufferUsages::copy_src())
    );
    assert_eq!(
        owned_buffer_usage(&BindingInstanceEntry::Storage(vec![0; 16])),
        Some(BufferUsages::storage() | BufferUsages::copy_dst() | BufferUsages::copy_src())
    );
    assert_eq!(owned_buffer_usage(&BindingInstanceEntry::Texture(3)), None);
}

#[test]
fn descriptor_entries_bind_by_position() {
    let entries = vec![entry("a", 9), entry("b", 4)];
    assert_eq!(material_instance::binding_index(&entries, "b"), Some(1));
    assert_eq!(material_instance::binding_index(&entries, "c"), None);
}

#[test]
fn a_bundle_with_no_attachments_is_warned_about() {
    let empty = RenderBundleEncoderBuilder::new();
    assert_eq!(empty.validate(), Some(RenderBundleWarning::NoAttachments));
    assert_eq!(empty.sample_count(), 1);
    let bundle = RenderBundleEncoderBuilder::new()
        .with_color_formats(vec![Some(TextureFormat::Bgra8UnormSrgb)])
        .with_depth_stencil_format(TextureFormat::Depth32Float)
        .with_depth_read_only(true)
        .with_sample_count(4);
    assert_eq!(bundle.validate(), None);
    let ds = bundle.depth_stencil().unwrap();
    assert_eq!(ds.format, TextureFormat::Depth32Float);
    assert!(ds.depth_read_only && !ds.stencil_read_only);
    assert_eq!(bundle.sample_count(), 4);
}

#[test]
fn render_targets_are_checked_against_the_dimension_limit() {
    let desc = RenderTargetTextureBuilder::new(1920, 1080, TextureFormat::Depth32Float)
        .label(Some("depth"))
        .usage(TextureUsages::render_attachment())
        .sample_count(4)
        .build(&limits())
        .unwrap();
    assert_eq!((desc.width, desc.height, desc.sample_count, desc.mip_level_count), (1920, 1080, 4, 1));
    assert_eq!(desc.label, Some("depth"));
    assert!(RenderTargetTextureBuilder::new(9000, 10, TextureFormat::Rgba8Unorm).build(&limits()).is_err());
}

#[test]
fn cursor_defaults() {
    assert_eq!(CursorIcon::default(), CursorIcon::Default);
    assert_eq!(CursorGrabMode::default(), CursorGrabMode::Free);
}
