//! Texture array sources: one file per layer, raw bytes per layer, or an
//! empty array, and the upload decided for each before the GPU is touched.

use vstd::prelude::*;
use crate::mipmap::{mip_count, spec_mip_count, spec_texture_usage, texture_usage};
use crate::texture_format::TextureFormat;
use crate::textures::{TexturePlan, TextureWarning, spec_max};

verus! {
/// A texture array source, as a value.
pub struct TextureArrayDesc {
    pub files: Option<Seq<&'static str>>,
    pub width: u32,
    pub height: u32,
    pub format: TextureFormat,
    pub data: Option<Seq<Vec<u8>>>,
    pub generate_mips: bool,
    pub layer_count: u32,
}

/// Source data of a 2D texture array: one file per layer, raw bytes per
/// layer, or an empty array of `layer_count` layers.
pub struct TextureArray {
    files: Option<Vec<&'static str>>,
    width: u32,
    height: u32,
    format: TextureFormat,
    data: Option<Vec<Vec<u8>>>,
    generate_mips: bool,
    layer_count: u32,
}

impl View for TextureArray {
    type V = TextureArrayDesc;

    closed spec fn view(&self) -> TextureArrayDesc {
        TextureArrayDesc {
            files: match self.files {
                Some(f) => Some(f@),
                None => None,
            },
            width: self.width,
            height: self.height,
            format: self.format,
            data: match self.data {
                Some(d) => Some(d@),
                None => None,
            },
            generate_mips: self.generate_mips,
            layer_count: self.layer_count,
        }
    }
}

/// Why a texture array cannot be uploaded.
#[derive(Clone, Copy, Debug, PartialEq, Eq, Structural)]
pub enum TextureArrayError {
    /// Layer `layer` decoded to a different size than the first layer.
    LayerSizeMismatch { layer: usize, width: u32, height: u32, expected_width: u32, expected_height: u32 },
    /// The array resolved to zero layers.
    ZeroLayers,
    /// More layers than a `u32` can count.
    TooManyLayers,
}

/// How many layers the array has: one per file, one per byte vector, or
/// the count an empty array was made with.
pub open spec fn spec_layer_count(d: TextureArrayDesc) -> int {
    match d.files {
        Some(f) => f.len() as int,
        None => match d.data {
            Some(layers) => layers.len() as int,
            None => d.layer_count as int,
        },
    }
}

/// The array is made from files, and some decoded file differs in size
/// from the first.
pub open spec fn layers_mismatch(d: TextureArrayDesc, decoded: Seq<(u32, u32)>) -> bool {
    d.files is Some && exists|i: int| 0 < i < decoded.len() && #[trigger] decoded[i] != decoded[0]
}

impl TextureArray {
    /// One layer per file; width and height come from the first decoded
    /// file and every other layer must match it.
    pub fn from_files(files: Vec<&'static str>) -> (r: Self)
        ensures
            r@ == (TextureArrayDesc {
                files: Some(files@),
                width: 0,
                height: 0,
                format: TextureFormat::Rgba8UnormSrgb,
                data: None,
                generate_mips: false,
                layer_count: 0,
            }),
    {
        TextureArray {
            files: Some(files),
            width: 0,
            height: 0,
            format: TextureFormat::Rgba8UnormSrgb,
            data: None,
            generate_mips: false,
            layer_count: 0,
        }
    }

    /// Raw pixel bytes per layer, matching `width`, `height` and `format`.
    pub fn from_data(width: u32, height: u32, format: TextureFormat, layers: Vec<Vec<u8>>) -> (r: Self)
        ensures
            r@ == (TextureArrayDesc {
                files: None,
                width,
                height,
                format,
                data: Some(layers@),
                generate_mips: false,
                layer_count: 0,
            }),
    {
        TextureArray { files: None, width, height, format, data: Some(layers), generate_mips: false, layer_count: 0 }
    }

    /// An array of `layer_count` layers with no initial pixel data.
    pub fn empty(width: u32, height: u32, format: TextureFormat, layer_count: u32) -> (r: Self)
        ensures
            r@ == (TextureArrayDesc { files: None, width, height, format, data: None, generate_mips: false, layer_count }),
    {
        TextureArray { files: None, width, height, format, data: None, generate_mips: false, layer_count }
    }

    pub fn with_format(self, format: TextureFormat) -> (r: Self)
        ensures r@ == (TextureArrayDesc { format, ..self@ }),
    {
        let mut t = self;
        t.format = format;
        t
    }

    /// Generates a full mip chain on upload.
    pub fn with_mips(self) -> (r: Self)
        ensures r@ == (TextureArrayDesc { generate_mips: true, ..self@ }),
    {
        let mut t = self;
        t.generate_mips = true;
        t
    }

    /// Warns about pixel data given with a zero width or height.
    pub fn validate(&self) -> (r: Option<TextureWarning>)
        ensures
            r == (if self@.data is Some && (self@.width == 0 || self@.height == 0) {
                Some(TextureWarning::ZeroSizedData { width: self@.width, height: self@.height })
            } else {
                None
            }),
    {
        if self.data.is_some() && (self.width == 0 || self.height == 0) {
            Some(TextureWarning::ZeroSizedData { width: self.width, height: self.height })
        } else {
            None
        }
    }

    /// The finished texture array source.
    pub fn build(self) -> (r: Self)
        ensures r@ == self@,
    {
        self
    }

    pub fn files(&self) -> (r: Option<&Vec<&'static str>>)
        ensures
            match r {
                Some(f) => self@.files == Some(f@),
                None => self@.files is None,
            },
    {
        match &self.files {
            Some(f) => Some(f),
            None => None,
        }
    }

    pub fn format(&self) -> (r: TextureFormat)
        ensures r == self@.format,
    {
        self.format
    }

    pub fn data(&self) -> (r: Option<&Vec<Vec<u8>>>)
        ensures
            match r {
                Some(d) => self@.data == Some(d@),
                None => self@.data is None,
            },
    {
        match &self.data {
            Some(d) => Some(d),
            None => None,
        }
    }

    /// The upload of this array. `decoded` holds the size of each decoded
    /// file, in order, when the source is files: every layer must match the
    /// first, whose size wins over the given width and height. Raw data
    /// gives one layer per byte vector; an empty array has `layer_count`
    /// layers. Zero layers is an error.
    pub fn upload_plan(&self, decoded: &Vec<(u32, u32)>) -> (r: Result<TexturePlan, TextureArrayError>)
        requires
            self@.files is Some ==> decoded@.len() == self@.files.unwrap().len(),
        ensures
            (r matches Err(TextureArrayError::LayerSizeMismatch { .. })) <==> layers_mismatch(self@, decoded@),
            r matches Err(TextureArrayError::LayerSizeMismatch { layer, width, height, expected_width, expected_height }) ==> {
                &&& 0 < layer < decoded@.len()
                &&& decoded@[layer as int] == (width, height)
                &&& decoded@[0] == (expected_width, expected_height)
                &&& (width, height) != (expected_width, expected_height)
                &&& forall|k: int| 0 < k < layer ==> #[trigger] decoded@[k] == decoded@[0]
            },
            (r == Err::<TexturePlan, TextureArrayError>(TextureArrayError::TooManyLayers))
                <==> (!layers_mismatch(self@, decoded@) && spec_layer_count(self@) > u32::MAX),
            (r == Err::<TexturePlan, TextureArrayError>(TextureArrayError::ZeroLayers))
                <==> (!layers_mismatch(self@, decoded@) && spec_layer_count(self@) == 0),
            r matches Ok(p) ==> ({
                let (w, h) = if self@.files is Some && decoded@.len() > 0 { decoded@[0] } else { (self@.width, self@.height) };
                let has_data = self@.files is Some || self@.data is Some;
                let mips = spec_mip_count(spec_max(w, h), self@.generate_mips);
                &&& p.width == w
                &&& p.height == h
                &&& p.layers == spec_layer_count(self@)
                &&& p.mip_count == mips
                &&& p.usage.0 == spec_texture_usage(mips as u32, !has_data)
                &&& p.writes_data == has_data
                &&& p.generates_mips == (has_data && mips > 1)
            }),
    {
        let mut width = self.width;
        let mut height = self.height;
        let count: usize;
        if let Some(files) = &self.files {
            if decoded.len() > 0 {
                width = decoded[0].0;
                height = decoded[0].1;
            }
            let mut i: usize = 1;
            while i < decoded.len()
                invariant
                    self@.files is Some,
                    decoded@.len() > 0 ==> (width, height) == decoded@[0],
                    1 <= i <= decoded@.len() || decoded@.len() == 0,
                    forall|k: int| 0 < k < i && k < decoded@.len() ==> #[trigger] decoded@[k] == decoded@[0],
                decreases decoded@.len() - i,
            {
                if decoded[i].0 != width || decoded[i].1 != height {
                    assert(self@.files is Some);
                    assert(decoded@[i as int] != decoded@[0]);
                    assert(0 < i < decoded@.len());
                    return Err(TextureArrayError::LayerSizeMismatch {
                        layer: i,
                        width: decoded[i].0,
                        height: decoded[i].1,
                        expected_width: width,
                        expected_height: height,
                    });
                }
                i = i + 1;
            }
            count = files.len();
        } else if let Some(data) = &self.data {
            count = data.len();
        } else {
            count = self.layer_count as usize;
        }
        if count > u32::MAX as usize {
            return Err(TextureArrayError::TooManyLayers);
        }
        if count == 0 {
            return Err(TextureArrayError::ZeroLayers);
        }
        let has_data = self.files.is_some() || self.data.is_some();
        let side = if width >= height { width } else { height };
        let mips = mip_count(side, self.generate_mips);
        Ok(TexturePlan {
            width,
            height,
            layers: count as u32,
            mip_count: mips,
            usage: texture_usage(mips, !has_data),
            writes_data: has_data,
            generates_mips: has_data && mips > 1,
        })
    }
}

} // verus!
