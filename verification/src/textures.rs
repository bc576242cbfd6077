//! Single-texture sources and everything decided about them before the GPU
//! is touched: the dimensions actually uploaded, the mip chain, the usage
//! flags, the checks against the device's limits, and how decoded image
//! pixels become the bytes of the requested format.

use vstd::prelude::*;
use crate::flags::TextureUsages;
use crate::limits::DeviceLimits;
use crate::mipmap::{mip_count, spec_mip_count, spec_texture_usage, texture_usage};
use crate::texture_format::{TextureFormat, spec_bytes_per_pixel, bytes_per_pixel};

verus! {

// ---------------------------------------------------------------------
// Pixel bytes
// ---------------------------------------------------------------------

/// The first `channels` bytes of every 4-byte (RGBA) pixel of `rgba`, in
/// order; a trailing partial pixel is ignored.
pub open spec fn spec_take_channels(rgba: Seq<u8>, channels: nat) -> Seq<u8> {
    Seq::new((rgba.len() / 4) * channels, |i: int| rgba[4 * (i / channels as int) + i % channels as int])
}

/// Every 4-byte pixel of `rgba` with its first and third bytes swapped (RGBA
/// to BGRA); a trailing partial pixel is ignored.
pub open spec fn spec_bgra_swap(rgba: Seq<u8>) -> Seq<u8> {
    Seq::new((rgba.len() / 4) * 4, |i: int| {
        let p = i / 4;
        let c = i % 4;
        if c == 0 {
            rgba[4 * p + 2]
        } else if c == 2 {
            rgba[4 * p]
        } else {
            rgba[i]
        }
    })
}

/// Keeps the first `channels` of every 4-channel (RGBA) pixel, dropping the rest.
pub fn take_channels_u8(rgba: &[u8], channels: usize) -> (r: Vec<u8>)
    requires
        channels <= 4,
    ensures
        r@ == spec_take_channels(rgba@, channels as nat),
{
    if channels == 0 {
        assert(spec_take_channels(rgba@, 0) =~= Seq::<u8>::empty());
        return Vec::new();
    }
    let n = rgba.len();
    let pixels = n / 4;
    let mut out: Vec<u8> = Vec::new();
    let mut p: usize = 0;
    while p < pixels
        invariant
            pixels == rgba@.len() / 4,
            n == rgba@.len(),
            1 <= channels <= 4,
            p <= pixels,
            out@.len() == p * channels,
            forall|i: int| 0 <= i < out@.len() ==> out@[i] == rgba@[4 * (i / channels as int) + i % channels as int],
        decreases pixels - p,
    {
        let mut c: usize = 0;
        while c < channels
            invariant
                pixels == rgba@.len() / 4,
                n == rgba@.len(),
                1 <= channels <= 4,
                p < pixels,
                c <= channels,
                out@.len() == p * channels + c,
                forall|i: int| 0 <= i < out@.len() ==> out@[i] == rgba@[4 * (i / channels as int) + i % channels as int],
            decreases channels - c,
        {
            let ghost i = out@.len() as int;
            proof {
                assert(i / channels as int == p as int && i % channels as int == c as int) by (nonlinear_arith)
                    requires i == p * channels + c, 0 <= c < channels, p >= 0;
                assert(4 * p + c < rgba@.len()) by (nonlinear_arith)
                    requires p < pixels, pixels == rgba@.len() / 4, c < 4;
            }
            out.push(rgba[4 * p + c]);
            c = c + 1;
        }
        assert(out@.len() == (p + 1) * channels) by (nonlinear_arith)
            requires out@.len() == p * channels + channels;
        p = p + 1;
    }
    assert(out@ =~= spec_take_channels(rgba@, channels as nat));
    out
}

/// Swaps the R and B bytes of every RGBA8 pixel, giving BGRA8 byte order.
pub fn bgra_swap(rgba: &[u8]) -> (r: Vec<u8>)
    ensures
        r@ == spec_bgra_swap(rgba@),
{
    let n = rgba.len();
    let pixels = n / 4;
    let mut out: Vec<u8> = Vec::new();
    let mut p: usize = 0;
    while p < pixels
        invariant
            pixels == rgba@.len() / 4,
            n == rgba@.len(),
            p <= pixels,
            out@.len() == 4 * p,
            forall|i: int| 0 <= i < out@.len() ==> out@[i] == spec_bgra_swap(rgba@)[i],
        decreases pixels - p,
    {
        let ghost before = out@;
        assert(4 * p + 3 < rgba@.len());
        out.push(rgba[4 * p + 2]);
        out.push(rgba[4 * p + 1]);
        out.push(rgba[4 * p]);
        out.push(rgba[4 * p + 3]);
        assert forall|i: int| 0 <= i < out@.len() implies out@[i] == spec_bgra_swap(rgba@)[i] by {
            if i < before.len() {
                assert(out@[i] == before[i]);
            } else {
                assert(i / 4 == p as int);
            }
        }
        p = p + 1;
    }
    assert(out@ =~= spec_bgra_swap(rgba@));
    out
}

/// The bytes of `format` converted from decoded RGBA8 pixels, for the
/// 8-bit formats a decoded image converts into; `None` for any other format.
pub open spec fn spec_convert_rgba8(format: TextureFormat, rgba: Seq<u8>) -> Option<Seq<u8>> {
    match format {
        TextureFormat::Rgba8Unorm | TextureFormat::Rgba8UnormSrgb => Some(rgba),
        TextureFormat::Bgra8Unorm | TextureFormat::Bgra8UnormSrgb => Some(spec_bgra_swap(rgba)),
        TextureFormat::R8Unorm => Some(spec_take_channels(rgba, 1)),
        TextureFormat::Rg8Unorm => Some(spec_take_channels(rgba, 2)),
        _ => None,
    }
}

/// Converts decoded RGBA8 pixels into the bytes of `format`: unchanged for
/// `Rgba8*`, channel-swapped for `Bgra8*`, the first one or two channels for
/// `R8Unorm`/`Rg8Unorm`; `None` for formats not decoded through RGBA8.
pub fn convert_rgba8(format: TextureFormat, rgba: &[u8]) -> (r: Option<Vec<u8>>)
    ensures
        match r {
            Some(v) => spec_convert_rgba8(format, rgba@) == Some(v@),
            None => spec_convert_rgba8(format, rgba@) is None,
        },
{
    match format {
        TextureFormat::Rgba8Unorm | TextureFormat::Rgba8UnormSrgb => Some(vstd::slice::slice_to_vec(rgba)),
        TextureFormat::Bgra8Unorm | TextureFormat::Bgra8UnormSrgb => Some(bgra_swap(rgba)),
        TextureFormat::R8Unorm => Some(take_channels_u8(rgba, 1)),
        TextureFormat::Rg8Unorm => Some(take_channels_u8(rgba, 2)),
        _ => None,
    }
}

/// What the `image` crate decodes the bytes of an image file into, as 8-bit
/// RGBA, when the decoder is chosen by the extension of the file's path: its
/// width, height and pixels, or `None` when the path names no format it
/// knows or the bytes do not decode as that format.
pub uninterp spec fn decoded_rgba8(bytes: Seq<u8>, path: Seq<char>) -> Option<(u32, u32, Seq<u8>)>;

/// Picks the decoder by the path's extension with
/// `image::ImageFormat::from_path`, decodes the bytes with
/// `image::load_from_memory_with_format`, and converts the image to 8-bit
/// RGBA with `to_rgba8`. Claimed: the outcome depends on the bytes and the
/// path alone, and is named [`decoded_rgba8`]; `None` exactly when the
/// extension names no known format or decoding fails; an RGBA8 image holds
/// four bytes per pixel. Nothing is claimed of the pixel values.
#[verifier::external_body]
fn decode_rgba8(bytes: &[u8], path: &str) -> (r: Option<(u32, u32, Vec<u8>)>)
    ensures
        match r {
            Some((w, h, p)) => decoded_rgba8(bytes@, path@) == Some((w, h, p@)) && p@.len() == 4 * w * h,
            None => decoded_rgba8(bytes@, path@) is None,
        },
{
    let format = match image::ImageFormat::from_path(path) {
        Ok(format) => format,
        Err(_) => return None,
    };
    match image::load_from_memory_with_format(bytes, format) {
        Ok(img) => {
            let img = img.to_rgba8();
            let (w, h) = img.dimensions();
            Some((w, h, img.into_raw()))
        },
        Err(_) => None,
    }
}

/// Converting `4 * w * h` bytes of RGBA8 pixels gives `w * h` pixels of the
/// target format.
proof fn lemma_converted_len(format: TextureFormat, raw: Seq<u8>, w: u32, h: u32)
    requires
        raw.len() == 4 * w * h,
        spec_convert_rgba8(format, raw) is Some,
    ensures
        spec_bytes_per_pixel(format) is Some,
        spec_convert_rgba8(format, raw).unwrap().len() == w * h * spec_bytes_per_pixel(format).unwrap(),
{
    let n = (w as int) * (h as int);
    assert(raw.len() / 4 == n && raw.len() == w * h * 4 && w * h * 4 == 4 * n && w * h * 2 == 2 * n && w * h * 1 == n) by (nonlinear_arith)
        requires raw.len() == 4 * w * h, n == (w as int) * (h as int);
    match format {
        TextureFormat::Rgba8Unorm | TextureFormat::Rgba8UnormSrgb => {},
        TextureFormat::Bgra8Unorm | TextureFormat::Bgra8UnormSrgb => {
            assert(spec_bgra_swap(raw).len() == n * 4);
        },
        TextureFormat::R8Unorm => {
            assert(spec_take_channels(raw, 1).len() == n * 1);
        },
        TextureFormat::Rg8Unorm => {
            assert(spec_take_channels(raw, 2).len() == n * 2);
        },
        _ => {},
    }
}

/// Decodes an image file's bytes into the bytes of one of the 8-bit
/// formats (`Rgba8*`, `Bgra8*`, `R8Unorm`, `Rg8Unorm`), the decoder chosen
/// by the extension of `path`: the decoded size, and the decoded RGBA8
/// pixels converted by [`convert_rgba8`], one pixel of `format` for each.
/// `None` when the bytes do not decode, or for any other format.
pub fn decode_ldr(bytes: &[u8], path: &str, format: TextureFormat) -> (r: Option<(u32, u32, Vec<u8>)>)
    ensures
        match decoded_rgba8(bytes@, path@) {
            Some((w, h, raw)) => match spec_convert_rgba8(format, raw) {
                Some(p) => r matches Some((w2, h2, p2)) && w2 == w && h2 == h && p2@ == p
                    && p2@.len() == w * h * spec_bytes_per_pixel(format).unwrap(),
                None => r is None,
            },
            None => r is None,
        },
{
    match decode_rgba8(bytes, path) {
        None => None,
        Some((w, h, raw)) => match convert_rgba8(format, raw.as_slice()) {
            Some(p) => {
                proof { lemma_converted_len(format, raw@, w, h); }
                Some((w, h, p))
            },
            None => None,
        },
    }
}

/// How pixels decoded from an image file become the bytes of a texture
/// format: from 8-bit RGBA as is, channel-swapped, or cut to the first
/// `n` channels; or from 32-bit float RGBA quantized to 16-bit unorm, or
/// cut to `n` channels of 32-bit or 16-bit floats.
#[derive(Clone, Copy, Debug, PartialEq, Eq, Structural)]
pub enum DecodeRoute {
    Rgba8,
    Bgra8,
    Channels8(usize),
    Unorm16,
    Float32(usize),
    Float16(usize),
}

/// The route by which a decoded image file becomes `format`'s bytes; the
/// regular 8-bit, 16-bit and 32-bit unorm and float formats have one,
/// block-compressed, multi-planar and other formats none.
pub open spec fn spec_decode_route(format: TextureFormat) -> Option<DecodeRoute> {
    match format {
        TextureFormat::Rgba8Unorm | TextureFormat::Rgba8UnormSrgb => Some(DecodeRoute::Rgba8),
        TextureFormat::Bgra8Unorm | TextureFormat::Bgra8UnormSrgb => Some(DecodeRoute::Bgra8),
        TextureFormat::R8Unorm => Some(DecodeRoute::Channels8(1)),
        TextureFormat::Rg8Unorm => Some(DecodeRoute::Channels8(2)),
        TextureFormat::Rgba16Unorm => Some(DecodeRoute::Unorm16),
        TextureFormat::Rgba32Float => Some(DecodeRoute::Float32(4)),
        TextureFormat::Rg32Float => Some(DecodeRoute::Float32(2)),
        TextureFormat::R32Float => Some(DecodeRoute::Float32(1)),
        TextureFormat::Rgba16Float => Some(DecodeRoute::Float16(4)),
        TextureFormat::Rg16Float => Some(DecodeRoute::Float16(2)),
        TextureFormat::R16Float => Some(DecodeRoute::Float16(1)),
        _ => None,
    }
}

/// The bytes one pixel takes once decoded by route `r`: four 8-bit
/// channels for `Rgba8`/`Bgra8`, `n` 8-bit channels, four 16-bit channels
/// for `Unorm16`, `n` 32-bit or `n` 16-bit floats.
pub open spec fn route_pixel_bytes(r: DecodeRoute) -> int {
    match r {
        DecodeRoute::Rgba8 | DecodeRoute::Bgra8 => 4,
        DecodeRoute::Channels8(n) => n as int,
        DecodeRoute::Unorm16 => 8,
        DecodeRoute::Float32(n) => 4 * n,
        DecodeRoute::Float16(n) => 2 * n,
    }
}

/// A decoded file fills a texture of its format exactly: the pixel size
/// each route produces is the format's own pixel size. Half-float formats
/// are decoded to half floats and only they, single-float formats to
/// single floats and only they, `Bgra8*` is channel-swapped and only it,
/// `Rgba8*` is taken as is, `R8`/`Rg8` keep their leading 8-bit channels,
/// and `Rgba16Unorm` alone is quantized to 16-bit unorm.
pub proof fn lemma_decode_routes(format: TextureFormat)
    ensures
        match spec_decode_route(format) {
            Some(r) => route_pixel_bytes(r) > 0 && spec_bytes_per_pixel(format) == Some(route_pixel_bytes(r) as u32),
            None => true,
        },
        (spec_decode_route(format) matches Some(DecodeRoute::Float16(_)))
            <==> (format == TextureFormat::R16Float || format == TextureFormat::Rg16Float || format == TextureFormat::Rgba16Float),
        (spec_decode_route(format) matches Some(DecodeRoute::Float32(_)))
            <==> (format == TextureFormat::R32Float || format == TextureFormat::Rg32Float || format == TextureFormat::Rgba32Float),
        (spec_decode_route(format) == Some(DecodeRoute::Bgra8))
            <==> (format == TextureFormat::Bgra8Unorm || format == TextureFormat::Bgra8UnormSrgb),
        (spec_decode_route(format) == Some(DecodeRoute::Rgba8))
            <==> (format == TextureFormat::Rgba8Unorm || format == TextureFormat::Rgba8UnormSrgb),
        (spec_decode_route(format) matches Some(DecodeRoute::Channels8(_)))
            <==> (format == TextureFormat::R8Unorm || format == TextureFormat::Rg8Unorm),
        (spec_decode_route(format) == Some(DecodeRoute::Unorm16)) <==> format == TextureFormat::Rgba16Unorm,
{
}

/// Decoded RGBA8 pixels convert into exactly the formats whose route is
/// an 8-bit one, and the result holds one pixel of the route's size for
/// RGBA8 pixel.
pub proof fn lemma_ldr_routes(format: TextureFormat, raw: Seq<u8>)
    requires
        raw.len() % 4 == 0,
    ensures
        (spec_convert_rgba8(format, raw) is Some) <==> (spec_decode_route(format) matches Some(r)
            && (r == DecodeRoute::Rgba8 || r == DecodeRoute::Bgra8 || r is Channels8)),
        spec_convert_rgba8(format, raw) matches Some(p)
            ==> p.len() == (raw.len() / 4) * route_pixel_bytes(spec_decode_route(format).unwrap()),
{
    if spec_convert_rgba8(format, raw) is Some {
        match format {
            TextureFormat::Rgba8Unorm | TextureFormat::Rgba8UnormSrgb => {
                assert(raw.len() == (raw.len() / 4) * 4);
            },
            _ => {},
        }
    }
}

/// How an image file decodes into `format`, or `None` when it cannot.
pub fn decode_route(format: TextureFormat) -> (r: Option<DecodeRoute>)
    ensures
        r == spec_decode_route(format),
{
    match format {
        TextureFormat::Rgba8Unorm | TextureFormat::Rgba8UnormSrgb => Some(DecodeRoute::Rgba8),
        TextureFormat::Bgra8Unorm | TextureFormat::Bgra8UnormSrgb => Some(DecodeRoute::Bgra8),
        TextureFormat::R8Unorm => Some(DecodeRoute::Channels8(1)),
        TextureFormat::Rg8Unorm => Some(DecodeRoute::Channels8(2)),
        TextureFormat::Rgba16Unorm => Some(DecodeRoute::Unorm16),
        TextureFormat::Rgba32Float => Some(DecodeRoute::Float32(4)),
        TextureFormat::Rg32Float => Some(DecodeRoute::Float32(2)),
        TextureFormat::R32Float => Some(DecodeRoute::Float32(1)),
        TextureFormat::Rgba16Float => Some(DecodeRoute::Float16(4)),
        TextureFormat::Rg16Float => Some(DecodeRoute::Float16(2)),
        TextureFormat::R16Float => Some(DecodeRoute::Float16(1)),
        _ => None,
    }
}

/// The byte length of one row of `width` pixels of `format`; `None` for a
/// format with no linear pixel layout or a row too long for a `u32`.
pub fn bytes_per_row(format: TextureFormat, width: u32) -> (r: Option<u32>)
    ensures
        match r {
            Some(b) => spec_bytes_per_pixel(format) is Some && b == spec_bytes_per_pixel(format).unwrap() * width,
            None => spec_bytes_per_pixel(format) is None || spec_bytes_per_pixel(format).unwrap() * width > u32::MAX,
        },
{
    match bytes_per_pixel(format) {
        Some(bpp) => bpp.checked_mul(width),
        None => None,
    }
}

/// A texture larger than the device's 2D texture dimension limit.
#[derive(Clone, Copy, Debug, PartialEq, Eq, Structural)]
pub struct TextureTooLarge {
    pub width: u32,
    pub height: u32,
    pub max: u32,
}

/// Checks a `width` x `height` texture against the device's
/// `max_texture_dimension_2d`.
pub fn check_texture_dimensions(limits: &DeviceLimits, width: u32, height: u32) -> (r: Result<(), TextureTooLarge>)
    ensures
        r is Ok <==> (width <= limits.max_texture_dimension_2d && height <= limits.max_texture_dimension_2d),
        r matches Err(e) ==> e == (TextureTooLarge { width, height, max: limits.max_texture_dimension_2d }),
{
    if width > limits.max_texture_dimension_2d || height > limits.max_texture_dimension_2d {
        Err(TextureTooLarge { width, height, max: limits.max_texture_dimension_2d })
    } else {
        Ok(())
    }
}

/// What a texture upload creates: its extent, mip levels, usage, and
/// whether level-0 pixel data is written and the remaining levels generated.
#[derive(Clone, Copy, Debug, PartialEq, Eq, Structural)]
pub struct TexturePlan {
    pub width: u32,
    pub height: u32,
    pub layers: u32,
    pub mip_count: u32,
    pub usage: TextureUsages,
    pub writes_data: bool,
    pub generates_mips: bool,
}

/// The larger of two sides.
pub open spec fn spec_max(a: u32, b: u32) -> u32 {
    if a >= b { a } else { b }
}

// ---------------------------------------------------------------------
// 2D textures
// ---------------------------------------------------------------------

/// A 2D texture source, as a value.
pub struct TextureDesc {
    pub file: Option<&'static str>,
    pub width: u32,
    pub height: u32,
    pub format: TextureFormat,
    pub data: Option<Seq<u8>>,
    pub generate_mips: bool,
}

/// Source data of a 2D texture: a file to decode, raw pixel bytes, or
/// nothing (an empty texture written later or rendered into).
pub struct Texture {
    file: Option<&'static str>,
    width: u32,
    height: u32,
    format: TextureFormat,
    data: Option<Vec<u8>>,
    generate_mips: bool,
}

impl View for Texture {
    type V = TextureDesc;

    closed spec fn view(&self) -> TextureDesc {
        TextureDesc {
            file: self.file,
            width: self.width,
            height: self.height,
            format: self.format,
            data: match self.data {
                Some(d) => Some(d@),
                None => None,
            },
            generate_mips: self.generate_mips,
        }
    }
}

/// Something suspicious about a texture source.
#[derive(Clone, Copy, Debug, PartialEq, Eq, Structural)]
pub enum TextureWarning {
    /// Pixel data was given with a zero width or height.
    ZeroSizedData { width: u32, height: u32 },
}

impl Texture {
    /// Loads pixel data from a file; width and height come from the decoded
    /// image, the format defaults to `Rgba8UnormSrgb`.
    pub fn from_file(path: &'static str) -> (r: Self)
        ensures
            r@ == (TextureDesc {
                file: Some(path),
                width: 0,
                height: 0,
                format: TextureFormat::Rgba8UnormSrgb,
                data: None,
                generate_mips: false,
            }),
    {
        Texture { file: Some(path), width: 0, height: 0, format: TextureFormat::Rgba8UnormSrgb, data: None, generate_mips: false }
    }

    /// Raw pixel bytes matching `width`, `height` and `format`.
    pub fn from_data(width: u32, height: u32, format: TextureFormat, data: Vec<u8>) -> (r: Self)
        ensures
            r@ == (TextureDesc { file: None, width, height, format, data: Some(data@), generate_mips: false }),
    {
        Texture { file: None, width, height, format, data: Some(data), generate_mips: false }
    }

    /// A texture with no initial pixel data.
    pub fn empty(width: u32, height: u32, format: TextureFormat) -> (r: Self)
        ensures
            r@ == (TextureDesc { file: None, width, height, format, data: None, generate_mips: false }),
    {
        Texture { file: None, width, height, format, data: None, generate_mips: false }
    }

    pub fn with_format(self, format: TextureFormat) -> (r: Self)
        ensures r@ == (TextureDesc { format, ..self@ }),
    {
        let mut t = self;
        t.format = format;
        t
    }

    /// Generates a full mip chain on upload.
    pub fn with_mips(self) -> (r: Self)
        ensures r@ == (TextureDesc { generate_mips: true, ..self@ }),
    {
        let mut t = self;
        t.generate_mips = true;
        t
    }

    /// Warns about pixel data given with a zero width or height.
    pub fn validate(&self) -> (r: Option<TextureWarning>)
        ensures
            r == (if self@.data is Some && (self@.width == 0 || self@.height == 0) {
                Some(TextureWarning::ZeroSizedData { width: self@.width, height: self@.height })
            } else {
                None
            }),
    {
        if self.data.is_some() && (self.width == 0 || self.height == 0) {
            Some(TextureWarning::ZeroSizedData { width: self.width, height: self.height })
        } else {
            None
        }
    }

    /// The finished texture source.
    pub fn build(self) -> (r: Self)
        ensures r@ == self@,
    {
        self
    }

    pub fn file(&self) -> (r: Option<&'static str>)
        ensures r == self@.file,
    {
        self.file
    }

    pub fn format(&self) -> (r: TextureFormat)
        ensures r == self@.format,
    {
        self.format
    }

    pub fn data(&self) -> (r: Option<&Vec<u8>>)
        ensures
            match r {
                Some(d) => self@.data == Some(d@),
                None => self@.data is None,
            },
    {
        match &self.data {
            Some(d) => Some(d),
            None => None,
        }
    }

    /// The upload of this texture. `decoded` is the size of the decoded
    /// image when the source is a file: the file's size wins over the given
    /// width and height. The mip chain follows the larger side; an empty
    /// texture can be rendered into.
    pub fn upload_plan(&self, decoded: Option<(u32, u32)>) -> (r: TexturePlan)
        requires
            self@.file is Some <==> decoded is Some,
        ensures
            ({
                let (w, h) = match decoded { Some(d) => d, None => (self@.width, self@.height) };
                let has_data = self@.file is Some || self@.data is Some;
                let mips = spec_mip_count(spec_max(w, h), self@.generate_mips);
                &&& r.width == w
                &&& r.height == h
                &&& r.layers == 1
                &&& r.mip_count == mips
                &&& r.usage.0 == spec_texture_usage(mips as u32, !has_data)
                &&& r.writes_data == has_data
                &&& r.generates_mips == (mips > 1)
            }),
    {
        let (width, height) = match decoded {
            Some(d) => d,
            None => (self.width, self.height),
        };
        let has_data = self.file.is_some() || self.data.is_some();
        let side = if width >= height { width } else { height };
        let mips = mip_count(side, self.generate_mips);
        TexturePlan {
            width,
            height,
            layers: 1,
            mip_count: mips,
            usage: texture_usage(mips, !has_data),
            writes_data: has_data,
            generates_mips: mips > 1,
        }
    }
}

} // verus!
