//! Cubemap sources: six faces from files, from bytes, or empty; the face
//! size check and the upload decided before the GPU is touched, and the
//! view onto one face.

use vstd::prelude::*;
use crate::mipmap::{mip_count, spec_mip_count, spec_texture_usage, texture_usage};
use crate::texture_format::TextureFormat;
use crate::textures::TexturePlan;

verus! {
/// A cubemap source, as a value. Faces are in wgpu's order: +X, -X, +Y, -Y,
/// +Z, -Z.
pub struct CubemapDesc {
    pub size: u32,
    pub format: TextureFormat,
    pub faces: Option<Seq<Vec<u8>>>,
    pub face_files: Option<Seq<&'static str>>,
    pub generate_mips: bool,
}

/// Source data of a cubemap with square faces.
pub struct Cubemap {
    size: u32,
    format: TextureFormat,
    faces: Option<[Vec<u8>; 6]>,
    face_files: Option<[&'static str; 6]>,
    generate_mips: bool,
}

impl View for Cubemap {
    type V = CubemapDesc;

    closed spec fn view(&self) -> CubemapDesc {
        CubemapDesc {
            size: self.size,
            format: self.format,
            faces: match self.faces {
                Some(f) => Some(f@),
                None => None,
            },
            face_files: match self.face_files {
                Some(f) => Some(f@),
                None => None,
            },
            generate_mips: self.generate_mips,
        }
    }
}

/// Builds a [`Cubemap`] from six files, six byte vectors, or nothing.
pub struct CubemapBuilder {
    cubemap: Cubemap,
}

impl View for CubemapBuilder {
    type V = CubemapDesc;

    closed spec fn view(&self) -> CubemapDesc {
        self.cubemap@
    }
}

/// Something suspicious about a cubemap source.
#[derive(Clone, Copy, Debug, PartialEq, Eq, Structural)]
pub enum CubemapWarning {
    /// Mips requested for an empty render-target cubemap: they are never
    /// generated, since there is no pixel data to downsample.
    MipsOnEmpty,
}

/// A face decoded to a size other than the first face's edge, squared.
#[derive(Clone, Copy, Debug, PartialEq, Eq, Structural)]
pub struct FaceSizeMismatch {
    pub face: usize,
    pub width: u32,
    pub height: u32,
    pub expected: u32,
}

impl CubemapBuilder {
    /// Six faces loaded from files (+X, -X, +Y, -Y, +Z, -Z), format
    /// `Rgba8UnormSrgb`. The edge length is inferred from the first face
    /// when the files are decoded (see [`Cubemap::upload_plan`]); `size` is
    /// only what [`Cubemap::size`] reports before that.
    pub fn from_files(size: u32, files: [&'static str; 6]) -> (r: Self)
        ensures
            r@ == (CubemapDesc {
                size,
                format: TextureFormat::Rgba8UnormSrgb,
                faces: None,
                face_files: Some(files@),
                generate_mips: false,
            }),
    {
        CubemapBuilder {
            cubemap: Cubemap { size, format: TextureFormat::Rgba8UnormSrgb, faces: None, face_files: Some(files), generate_mips: false },
        }
    }

    /// Raw pixel bytes for each face (+X, -X, +Y, -Y, +Z, -Z).
    pub fn from_faces(size: u32, format: TextureFormat, faces: [Vec<u8>; 6]) -> (r: Self)
        ensures
            r@ == (CubemapDesc { size, format, faces: Some(faces@), face_files: None, generate_mips: false }),
    {
        CubemapBuilder { cubemap: Cubemap { size, format, faces: Some(faces), face_files: None, generate_mips: false } }
    }

    /// An empty cubemap to render into (e.g. an environment capture).
    pub fn empty(size: u32, format: TextureFormat) -> (r: Self)
        ensures
            r@ == (CubemapDesc { size, format, faces: None, face_files: None, generate_mips: false }),
    {
        CubemapBuilder { cubemap: Cubemap { size, format, faces: None, face_files: None, generate_mips: false } }
    }

    pub fn with_format(self, format: TextureFormat) -> (r: Self)
        ensures r@ == (CubemapDesc { format, ..self@ }),
    {
        let mut c = self.cubemap;
        c.format = format;
        CubemapBuilder { cubemap: c }
    }

    /// Generates a full mip chain on upload.
    pub fn with_mips(self) -> (r: Self)
        ensures r@ == (CubemapDesc { generate_mips: true, ..self@ }),
    {
        let mut c = self.cubemap;
        c.generate_mips = true;
        CubemapBuilder { cubemap: c }
    }

    /// Warns about mips requested on an empty cubemap.
    pub fn validate(&self) -> (r: Option<CubemapWarning>)
        ensures
            r == (if self@.generate_mips && self@.faces is None && self@.face_files is None {
                Some(CubemapWarning::MipsOnEmpty)
            } else {
                None
            }),
    {
        if self.cubemap.generate_mips && self.cubemap.faces.is_none() && self.cubemap.face_files.is_none() {
            Some(CubemapWarning::MipsOnEmpty)
        } else {
            None
        }
    }

    /// The finished cubemap source.
    pub fn build(self) -> (r: Cubemap)
        ensures r@ == self@,
    {
        self.cubemap
    }
}

impl Cubemap {
    pub fn size(&self) -> (r: u32)
        ensures r == self@.size,
    {
        self.size
    }

    pub fn format(&self) -> (r: TextureFormat)
        ensures r == self@.format,
    {
        self.format
    }

    pub fn face_files(&self) -> (r: Option<&[&'static str; 6]>)
        ensures
            match r {
                Some(f) => self@.face_files == Some(f@),
                None => self@.face_files is None,
            },
    {
        match &self.face_files {
            Some(f) => Some(f),
            None => None,
        }
    }

    pub fn faces(&self) -> (r: Option<&[Vec<u8>; 6]>)
        ensures
            match r {
                Some(f) => self@.faces == Some(f@),
                None => self@.faces is None,
            },
    {
        match &self.faces {
            Some(f) => Some(f),
            None => None,
        }
    }

    /// Checks the decoded size of each face file: the edge length is taken
    /// from the first face, and every face (the first too, since faces are
    /// square) must be that edge on both sides. Reports the first face that
    /// differs.
    pub fn check_face_sizes(&self, decoded: &Vec<(u32, u32)>) -> (r: Result<(), FaceSizeMismatch>)
        ensures
            r is Ok <==> forall|k: int| 0 <= k < decoded@.len() ==> #[trigger] decoded@[k] == (decoded@[0].0, decoded@[0].0),
            r matches Err(e) ==> {
                &&& (e.face as int) < decoded@.len()
                &&& decoded@[e.face as int] == (e.width, e.height)
                &&& e.expected == decoded@[0].0
                &&& (e.width, e.height) != (e.expected, e.expected)
                &&& forall|k: int| 0 <= k < e.face ==> #[trigger] decoded@[k] == (decoded@[0].0, decoded@[0].0)
            },
    {
        if decoded.len() == 0 {
            return Ok(());
        }
        let edge = decoded[0].0;
        let mut i: usize = 0;
        while i < decoded.len()
            invariant
                decoded@.len() > 0,
                edge == decoded@[0].0,
                i <= decoded@.len(),
                forall|k: int| 0 <= k < i ==> #[trigger] decoded@[k] == (edge, edge),
            decreases decoded@.len() - i,
        {
            let (w, h) = decoded[i];
            if w != edge || h != edge {
                return Err(FaceSizeMismatch { face: i, width: w, height: h, expected: edge });
            }
            i = i + 1;
        }
        Ok(())
    }

    /// The upload of this cubemap: six square layers whose edge is the
    /// first decoded face's width for a file cubemap (`decoded` holds the
    /// size of each decoded face file, in order) and the given size
    /// otherwise; a mip chain following that edge, render-attachment usage
    /// when there is no face data (a capture target), and mip generation
    /// only when face data is written.
    pub fn upload_plan(&self, decoded: &Vec<(u32, u32)>) -> (r: TexturePlan)
        ensures
            ({
                let edge = spec_cube_edge(self@, decoded@);
                let has_data = self@.faces is Some || self@.face_files is Some;
                let mips = spec_mip_count(edge, self@.generate_mips);
                &&& r.width == edge
                &&& r.height == edge
                &&& r.layers == 6
                &&& r.mip_count == mips
                &&& r.usage.0 == spec_texture_usage(mips as u32, !has_data)
                &&& r.writes_data == has_data
                &&& r.generates_mips == (has_data && mips > 1)
            }),
    {
        let edge = if self.face_files.is_some() && decoded.len() > 0 { decoded[0].0 } else { self.size };
        let has_data = self.faces.is_some() || self.face_files.is_some();
        let mips = mip_count(edge, self.generate_mips);
        TexturePlan {
            width: edge,
            height: edge,
            layers: 6,
            mip_count: mips,
            usage: texture_usage(mips, !has_data),
            writes_data: has_data,
            generates_mips: has_data && mips > 1,
        }
    }
}

/// The edge length a cubemap is uploaded with: for a file cubemap, the
/// width of the first decoded face; otherwise the size it was given.
pub open spec fn spec_cube_edge(d: CubemapDesc, decoded: Seq<(u32, u32)>) -> u32 {
    if d.face_files is Some && decoded.len() > 0 { decoded[0].0 } else { d.size }
}

/// A single-layer, single-level 2D view into a texture: which mip level of
/// which array layer (or cubemap face).
#[derive(Clone, Copy, Debug, PartialEq, Eq, Structural)]
pub struct SubresourceView {
    pub base_mip_level: u32,
    pub base_array_layer: u32,
}

/// The render-target view onto one face of a cubemap at one mip level;
/// faces are 0..=5 in the order +X, -X, +Y, -Y, +Z, -Z.
pub fn face_attachment(face: u32, mip_level: u32) -> (r: SubresourceView)
    requires
        face < 6,
    ensures
        r == (SubresourceView { base_mip_level: mip_level, base_array_layer: face }),
{
    SubresourceView { base_mip_level: mip_level, base_array_layer: face }
}

} // verus!
