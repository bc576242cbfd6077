//! One-off render-target textures (depth buffers, off-screen targets): the
//! description of the texture to allocate, with no source data.

use vstd::prelude::*;
use crate::flags::TextureUsages;
use crate::limits::DeviceLimits;
use crate::textures::{TextureTooLarge, check_texture_dimensions};
use crate::texture_format::TextureFormat;

verus! {

/// A render-target texture description, as a value.
pub struct RenderTargetDesc<'a> {
    pub label: Option<&'a str>,
    pub width: u32,
    pub height: u32,
    pub format: TextureFormat,
    pub usage: TextureUsages,
    pub mip_level_count: u32,
    pub sample_count: u32,
}

/// Describes an empty GPU texture to render into: a depth buffer, an
/// off-screen target. One mip level, one sample and no usage by default.
pub struct RenderTargetTextureBuilder<'a> {
    label: Option<&'a str>,
    width: u32,
    height: u32,
    format: TextureFormat,
    usage: TextureUsages,
    mip_level_count: u32,
    sample_count: u32,
}

impl<'a> View for RenderTargetTextureBuilder<'a> {
    type V = RenderTargetDesc<'a>;

    closed spec fn view(&self) -> RenderTargetDesc<'a> {
        RenderTargetDesc {
            label: self.label,
            width: self.width,
            height: self.height,
            format: self.format,
            usage: self.usage,
            mip_level_count: self.mip_level_count,
            sample_count: self.sample_count,
        }
    }
}

impl<'a> RenderTargetTextureBuilder<'a> {
    pub fn new(width: u32, height: u32, format: TextureFormat) -> (r: Self)
        ensures
            r@ == (RenderTargetDesc {
                label: None,
                width,
                height,
                format,
                usage: TextureUsages(0),
                mip_level_count: 1,
                sample_count: 1,
            }),
    {
        RenderTargetTextureBuilder {
            label: None,
            width,
            height,
            format,
            usage: TextureUsages::empty(),
            mip_level_count: 1,
            sample_count: 1,
        }
    }

    pub fn label(self, label: Option<&'a str>) -> (r: Self)
        ensures r@ == (RenderTargetDesc { label, ..self@ }),
    {
        let mut b = self;
        b.label = label;
        b
    }

    pub fn usage(self, usage: TextureUsages) -> (r: Self)
        ensures r@ == (RenderTargetDesc { usage, ..self@ }),
    {
        let mut b = self;
        b.usage = usage;
        b
    }

    pub fn mip_level_count(self, count: u32) -> (r: Self)
        ensures r@ == (RenderTargetDesc { mip_level_count: count, ..self@ }),
    {
        let mut b = self;
        b.mip_level_count = count;
        b
    }

    /// Multisample count; must match whatever the texture is used alongside.
    pub fn sample_count(self, count: u32) -> (r: Self)
        ensures r@ == (RenderTargetDesc { sample_count: count, ..self@ }),
    {
        let mut b = self;
        b.sample_count = count;
        b
    }

    /// The description to allocate, after checking its size against the
    /// device's limits.
    pub fn build(self, limits: &DeviceLimits) -> (r: Result<RenderTargetDesc<'a>, TextureTooLarge>)
        ensures
            r is Ok <==> (self@.width <= limits.max_texture_dimension_2d && self@.height <= limits.max_texture_dimension_2d),
            r matches Ok(d) ==> d == self@,
            r matches Err(e) ==> e == (TextureTooLarge { width: self@.width, height: self@.height, max: limits.max_texture_dimension_2d }),
    {
        match check_texture_dimensions(limits, self.width, self.height) {
            Ok(()) => Ok(RenderTargetDesc {
                label: self.label,
                width: self.width,
                height: self.height,
                format: self.format,
                usage: self.usage,
                mip_level_count: self.mip_level_count,
                sample_count: self.sample_count,
            }),
            Err(e) => Err(e),
        }
    }
}

} // verus!
