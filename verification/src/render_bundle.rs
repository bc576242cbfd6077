//! Render bundle encoders: the attachment formats and sample count a
//! recorded bundle, and every pass it is replayed in, must match.

use vstd::prelude::*;
use crate::texture_format::TextureFormat;

verus! {

/// A render bundle encoder description, as a value.
pub struct RenderBundleDesc<'a> {
    pub label: Option<&'a str>,
    pub color_formats: Seq<Option<TextureFormat>>,
    pub depth_stencil_format: Option<TextureFormat>,
    pub depth_read_only: bool,
    pub stencil_read_only: bool,
    pub sample_count: u32,
}

/// The depth/stencil attachment a bundle runs against.
#[derive(Clone, Copy, Debug, PartialEq, Eq, Structural)]
pub struct BundleDepthStencil {
    pub format: TextureFormat,
    pub depth_read_only: bool,
    pub stencil_read_only: bool,
}

/// Something suspicious about a bundle encoder.
#[derive(Clone, Copy, Debug, PartialEq, Eq, Structural)]
pub enum RenderBundleWarning {
    /// Neither a color nor a depth/stencil attachment: no render pass can
    /// execute the bundle.
    NoAttachments,
}

/// Describes a render bundle encoder; one sample and no attachments by
/// default.
pub struct RenderBundleEncoderBuilder<'a> {
    label: Option<&'a str>,
    color_formats: Vec<Option<TextureFormat>>,
    depth_stencil_format: Option<TextureFormat>,
    depth_read_only: bool,
    stencil_read_only: bool,
    sample_count: u32,
}

impl<'a> View for RenderBundleEncoderBuilder<'a> {
    type V = RenderBundleDesc<'a>;

    closed spec fn view(&self) -> RenderBundleDesc<'a> {
        RenderBundleDesc {
            label: self.label,
            color_formats: self.color_formats@,
            depth_stencil_format: self.depth_stencil_format,
            depth_read_only: self.depth_read_only,
            stencil_read_only: self.stencil_read_only,
            sample_count: self.sample_count,
        }
    }
}

impl<'a> Default for RenderBundleEncoderBuilder<'a> {
    fn default() -> (r: Self)
        ensures
            r@ == (RenderBundleDesc {
                label: None,
                color_formats: Seq::empty(),
                depth_stencil_format: None,
                depth_read_only: false,
                stencil_read_only: false,
                sample_count: 1,
            }),
    {
        let r = RenderBundleEncoderBuilder {
            label: None,
            color_formats: Vec::new(),
            depth_stencil_format: None,
            depth_read_only: false,
            stencil_read_only: false,
            sample_count: 1,
        };
        assert(r@.color_formats =~= Seq::<Option<TextureFormat>>::empty());
        r
    }
}

impl<'a> RenderBundleEncoderBuilder<'a> {
    pub fn new() -> (r: Self)
        ensures
            r@ == (RenderBundleDesc {
                label: None,
                color_formats: Seq::empty(),
                depth_stencil_format: None,
                depth_read_only: false,
                stencil_read_only: false,
                sample_count: 1,
            }),
    {
        Self::default()
    }

    pub fn with_label(self, label: Option<&'a str>) -> (r: Self)
        ensures r@ == (RenderBundleDesc { label, ..self@ }),
    {
        let mut b = self;
        b.label = label;
        b
    }

    /// One entry per color attachment, in order; `None` for a slot the
    /// bundle does not touch.
    pub fn with_color_formats(self, formats: Vec<Option<TextureFormat>>) -> (r: Self)
        ensures r@ == (RenderBundleDesc { color_formats: formats@, ..self@ }),
    {
        let mut b = self;
        b.color_formats = formats;
        b
    }

    pub fn with_depth_stencil_format(self, format: TextureFormat) -> (r: Self)
        ensures r@ == (RenderBundleDesc { depth_stencil_format: Some(format), ..self@ }),
    {
        let mut b = self;
        b.depth_stencil_format = Some(format);
        b
    }

    pub fn with_depth_read_only(self, read_only: bool) -> (r: Self)
        ensures r@ == (RenderBundleDesc { depth_read_only: read_only, ..self@ }),
    {
        let mut b = self;
        b.depth_read_only = read_only;
        b
    }

    pub fn with_stencil_read_only(self, read_only: bool) -> (r: Self)
        ensures r@ == (RenderBundleDesc { stencil_read_only: read_only, ..self@ }),
    {
        let mut b = self;
        b.stencil_read_only = read_only;
        b
    }

    /// Must match the sample count of every attachment the bundle runs
    /// against.
    pub fn with_sample_count(self, count: u32) -> (r: Self)
        ensures r@ == (RenderBundleDesc { sample_count: count, ..self@ }),
    {
        let mut b = self;
        b.sample_count = count;
        b
    }

    /// Warns about a bundle with no attachment at all.
    pub fn validate(&self) -> (r: Option<RenderBundleWarning>)
        ensures
            r == (if self@.color_formats.len() == 0 && self@.depth_stencil_format is None {
                Some(RenderBundleWarning::NoAttachments)
            } else {
                None
            }),
    {
        if self.color_formats.len() == 0 && self.depth_stencil_format.is_none() {
            Some(RenderBundleWarning::NoAttachments)
        } else {
            None
        }
    }

    pub fn label(&self) -> (r: Option<&'a str>)
        ensures r == self@.label,
    {
        self.label
    }

    pub fn color_formats(&self) -> (r: &Vec<Option<TextureFormat>>)
        ensures r@ == self@.color_formats,
    {
        &self.color_formats
    }

    pub fn sample_count(&self) -> (r: u32)
        ensures r == self@.sample_count,
    {
        self.sample_count
    }

    /// The depth/stencil attachment of the bundle: absent without a
    /// depth/stencil format, otherwise that format with the read-only flags.
    pub fn depth_stencil(&self) -> (r: Option<BundleDepthStencil>)
        ensures
            r == match self@.depth_stencil_format {
                None => None,
                Some(format) => Some(BundleDepthStencil {
                    format,
                    depth_read_only: self@.depth_read_only,
                    stencil_read_only: self@.stencil_read_only,
                }),
            },
    {
        match self.depth_stencil_format {
            None => None,
            Some(format) => Some(BundleDepthStencil {
                format,
                depth_read_only: self.depth_read_only,
                stencil_read_only: self.stencil_read_only,
            }),
        }
    }
}

} // verus!
