use pebble::flags::TextureUsages;
use pebble::limits::DeviceLimits;
use pebble::mipmap::{mip_blit_filtering, mip_blits, mip_count, texture_usage, MipBlit};
use pebble::texture_format::{bytes_per_pixel, TextureFormat};
use pebble::cubemap::{face_attachment, CubemapBuilder};
use pebble::texture_array::{TextureArray, TextureArrayError};
use pebble::textures::{
    bgra_swap, bytes_per_row, check_texture_dimensions, convert_rgba8, decode_ldr, decode_route, take_channels_u8, DecodeRoute, Texture,
    TextureTooLarge, TextureWarning,
};

fn limits() -> DeviceLimits {
    DeviceLimits {
        max_buffer_size: 1 << 28,
        max_uniform_buffer_binding_size: 64 << 10,
        max_storage_buffer_binding_size: 128 << 20,
        min_uniform_buffer_offset_alignment: 256,
        min_storage_buffer_offset_alignment: 256,
        max_bind_groups: 4,
        max_vertex_buffers: 8,
        max_vertex_attributes: 16,
        max_color_attachments: 8,
        max_texture_dimension_2d: 8192,
    }
}

#[test]
fn mip_counts_follow_the_largest_side() {
    assert_eq!(mip_count(256, true), 9);
    assert_eq!(mip_count(300, true), 9);
    assert_eq!(mip_count(1, true), 1);
    assert_eq!(mip_count(0, true), 1);
    assert_eq!(mip_count(1024, false), 1);
}

#[test]
fn a_mipmapped_or_empty_texture_is_a_render_attachment() {
    let base = TextureUsages::texture_binding() | TextureUsages::copy_dst();
    assert_eq!(texture_usage(1, false), base);
    assert_eq!(texture_usage(4, false), base | TextureUsages::render_attachment());
    assert_eq!(texture_usage(1, true), base | TextureUsages::render_attachment());
}

#[test]
fn mip_blits_cover_every_level_below_the_base_of_every_layer() {
    let blits = mip_blits(3, 2);
    assert_eq!(
        blits,
        vec![
            MipBlit { layer: 0, level: 1 },
            MipBlit { layer: 0, level: 2 },
            MipBlit { layer: 1, level: 1 },
            MipBlit { layer: 1, level: 2 },
        ]
    );
    assert!(mip_blits(1, 6).is_empty());
}

#[test]
fn only_filterable_formats_get_a_mip_chain() {
    assert_eq!(mip_blit_filtering(TextureFormat::Rgba8UnormSrgb), Some(true));
    assert_eq!(mip_blit_filtering(TextureFormat::Rgba32Float), Some(false));
    assert_eq!(mip_blit_filtering(TextureFormat::R8Unorm), None);
}

#[test]
fn rgba8_pixels_convert_into_the_narrower_formats() {
    let rgba = [1u8, 2, 3, 4, 5, 6, 7, 8];
    assert_eq!(take_channels_u8(&rgba, 1), vec![1, 5]);
    assert_eq!(take_channels_u8(&rgba, 2), vec![1, 2, 5, 6]);
    assert_eq!(take_channels_u8(&rgba, 0), Vec::<u8>::new());
    assert_eq!(bgra_swap(&rgba), vec![3, 2, 1, 4, 7, 6, 5, 8]);
    assert_eq!(convert_rgba8(TextureFormat::Rgba8Unorm, &rgba), Some(rgba.to_vec()));
    assert_eq!(convert_rgba8(TextureFormat::Bgra8UnormSrgb, &rgba), Some(vec![3, 2, 1, 4, 7, 6, 5, 8]));
    assert_eq!(convert_rgba8(TextureFormat::Rg8Unorm, &rgba), Some(vec![1, 2, 5, 6]));
    assert_eq!(convert_rgba8(TextureFormat::Rgba32Float, &rgba), None);
}

#[test]
fn each_decodable_format_has_its_route() {
    assert_eq!(decode_route(TextureFormat::Rgba8UnormSrgb), Some(DecodeRoute::Rgba8));
    assert_eq!(decode_route(TextureFormat::Bgra8Unorm), Some(DecodeRoute::Bgra8));
    assert_eq!(decode_route(TextureFormat::R8Unorm), Some(DecodeRoute::Channels8(1)));
    assert_eq!(decode_route(TextureFormat::Rgba16Unorm), Some(DecodeRoute::Unorm16));
    assert_eq!(decode_route(TextureFormat::Rg32Float), Some(DecodeRoute::Float32(2)));
    assert_eq!(decode_route(TextureFormat::R16Float), Some(DecodeRoute::Float16(1)));
    assert_eq!(decode_route(TextureFormat::Depth32Float), None);
}

#[test]
fn pixel_sizes_and_row_lengths() {
    assert_eq!(bytes_per_pixel(TextureFormat::R8Unorm), Some(1));
    assert_eq!(bytes_per_pixel(TextureFormat::Rgba16Float), Some(8));
    assert_eq!(bytes_per_pixel(TextureFormat::Rgba32Float), Some(16));
    assert_eq!(bytes_per_pixel(TextureFormat::Depth32Float), None);
    assert_eq!(bytes_per_row(TextureFormat::Rgba8Unorm, 256), Some(1024));
    assert_eq!(bytes_per_row(TextureFormat::Rgba32Float, u32::MAX), None);
}

#[test]
fn textures_beyond_the_dimension_limit_are_refused() {
    assert!(check_texture_dimensions(&limits(), 8192, 8192).is_ok());
    assert_eq!(
        check_texture_dimensions(&limits(), 8193, 16),
        Err(TextureTooLarge { width: 8193, height: 16, max: 8192 })
    );
}

#[test]
fn a_file_texture_takes_its_size_from_the_decoded_image() {
    let texture = Texture::from_file("brick.png").with_mips().build();
    assert_eq!(texture.file(), Some("brick.png"));
    assert_eq!(texture.format(), TextureFormat::Rgba8UnormSrgb);
    let plan = texture.upload_plan(Some((512, 256)));
    assert_eq!((plan.width, plan.height, plan.layers), (512, 256, 1));
    assert_eq!(plan.mip_count, 10);
    assert!(plan.writes_data && plan.generates_mips);
    assert!(plan.usage.contains(TextureUsages::render_attachment()));
}

#[test]
fn an_empty_texture_can_be_rendered_into() {
    let plan = Texture::empty(64, 32, TextureFormat::Rgba16Float).upload_plan(None);
    assert_eq!(plan.mip_count, 1);
    assert!(!plan.writes_data);
    assert!(plan.usage.contains(TextureUsages::render_attachment()));
}

#[test]
fn zero_sized_pixel_data_is_warned_about() {
    let t = Texture::from_data(0, 4, TextureFormat::Rgba8Unorm, vec![]);
    assert_eq!(t.validate(), Some(TextureWarning::ZeroSizedData { width: 0, height: 4 }));
    assert_eq!(Texture::from_data(1, 1, TextureFormat::Rgba8Unorm, vec![0; 4]).validate(), None);
}

#[test]
fn texture_array_layers_must_share_the_first_layers_size() {
    let array = TextureArray::from_files(vec!["a.png", "b.png", "c.png"]);
    let plan = array.upload_plan(&vec![(16, 16), (16, 16), (16, 16)]).unwrap();
    assert_eq!(plan.layers, 3);
    let err = array.upload_plan(&vec![(16, 16), (16, 16), (8, 16)]).unwrap_err();
    assert_eq!(
        err,
        TextureArrayError::LayerSizeMismatch { layer: 2, width: 8, height: 16, expected_width: 16, expected_height: 16 }
    );
}

#[test]
fn a_texture_array_needs_at_least_one_layer() {
    assert_eq!(TextureArray::empty(4, 4, TextureFormat::Rgba8Unorm, 0).upload_plan(&vec![]), Err(TextureArrayError::ZeroLayers));
    let plan = TextureArray::from_data(4, 4, TextureFormat::Rgba8Unorm, vec![vec![0; 64], vec![0; 64]]).with_mips().upload_plan(&vec![]).unwrap();
    assert_eq!((plan.layers, plan.mip_count), (2, 3));
}

#[test]
fn cubemap_faces_must_be_square_of_the_first_faces_edge() {
    let cubemap = CubemapBuilder::from_files(32, ["px", "nx", "py", "ny", "pz", "nz"]).build();
    assert!(cubemap.check_face_sizes(&vec![(64, 64); 6]).is_ok());
    let mut sizes = vec![(64, 64); 6];
    sizes[4] = (64, 16);
    let e = cubemap.check_face_sizes(&sizes).unwrap_err();
    assert_eq!((e.face, e.width, e.height, e.expected), (4, 64, 16, 64));
    let e = cubemap.check_face_sizes(&vec![(8, 4); 6]).unwrap_err();
    assert_eq!((e.face, e.expected), (0, 8));
    let plan = cubemap.upload_plan(&vec![(64, 64); 6]);
    assert_eq!((plan.width, plan.height, plan.layers), (64, 64, 6));
}

#[test]
fn a_cubemap_without_files_keeps_its_given_edge() {
    let plan = CubemapBuilder::empty(16, TextureFormat::Rgba8Unorm).with_mips().build().upload_plan(&vec![]);
    assert_eq!((plan.width, plan.height, plan.mip_count, plan.generates_mips), (16, 16, 5, false));
}

#[test]
fn a_cubemap_face_view_selects_one_layer_and_level() {
    let view = face_attachment(3, 2);
    assert_eq!((view.base_array_layer, view.base_mip_level), (3, 2));
}

fn png(width: u32, height: u32, rgba: Vec<u8>) -> Vec<u8> {
    let img = image::RgbaImage::from_raw(width, height, rgba).unwrap();
    let mut bytes = Vec::new();
    img.write_to(&mut std::io::Cursor::new(&mut bytes), image::ImageFormat::Png).unwrap();
    bytes
}

#[test]
fn image_bytes_decode_into_the_requested_eight_bit_format() {
    let bytes = png(2, 1, vec![10, 20, 30, 40, 50, 60, 70, 80]);
    assert_eq!(decode_ldr(&bytes, "a.png", TextureFormat::Rgba8UnormSrgb), Some((2, 1, vec![10, 20, 30, 40, 50, 60, 70, 80])));
    assert_eq!(decode_ldr(&bytes, "dir/b.PNG", TextureFormat::Bgra8Unorm), Some((2, 1, vec![30, 20, 10, 40, 70, 60, 50, 80])));
    assert_eq!(decode_ldr(&bytes, "a.png", TextureFormat::R8Unorm), Some((2, 1, vec![10, 50])));
    assert_eq!(decode_ldr(&bytes, "a.png", TextureFormat::Rg8Unorm), Some((2, 1, vec![10, 20, 50, 60])));
    assert_eq!(decode_ldr(&bytes, "a.png", TextureFormat::Rgba32Float), None);
    assert_eq!(decode_ldr(b"not an image", "a.png", TextureFormat::Rgba8Unorm), None);
}

#[test]
fn the_decoder_is_chosen_by_the_file_extension() {
    let bytes = png(1, 1, vec![1, 2, 3, 4]);
    assert_eq!(decode_ldr(&bytes, "a.jpg", TextureFormat::Rgba8Unorm), None);
    assert_eq!(decode_ldr(&bytes, "no_extension", TextureFormat::Rgba8Unorm), None);
    assert_eq!(decode_ldr(&bytes, "a.unknown", TextureFormat::Rgba8Unorm), None);
}
