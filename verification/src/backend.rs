//! The decisions of the window-surface backend: which format and present
//! mode to configure, when a resize reconfigures the surface, when a
//! multisampled color target exists and what it looks like, what an
//! acquire outcome means, and where a pass's color output goes. Talking to
//! the GPU is the caller's work.

use vstd::prelude::*;
use crate::texture_format::{TextureFormat, spec_is_srgb};

verus! {

/// How the surface presents frames.
#[derive(Copy, Clone, Debug, PartialEq, Eq, Structural)]
pub enum PresentMode {
    AutoVsync,
    AutoNoVsync,
    Fifo,
    FifoRelaxed,
    Immediate,
    Mailbox,
}

/// The format to configure the surface with: the first sRGB format it
/// offers, else the first it offers.
pub fn choose_surface_format(formats: &Vec<TextureFormat>) -> (r: TextureFormat)
    requires
        formats@.len() > 0,
    ensures
        (exists|i: int| 0 <= i < formats@.len() && spec_is_srgb(formats@[i])) ==> exists|i: int| {
            &&& 0 <= i < formats@.len()
            &&& #[trigger] formats@[i] == r
            &&& spec_is_srgb(r)
            &&& forall|j: int| 0 <= j < i ==> !spec_is_srgb(formats@[j])
        },
        !(exists|i: int| 0 <= i < formats@.len() && spec_is_srgb(formats@[i])) ==> r == formats@[0],
{
    let mut i: usize = 0;
    while i < formats.len()
        invariant
            i <= formats@.len(),
            forall|j: int| 0 <= j < i ==> !spec_is_srgb(formats@[j]),
        decreases formats@.len() - i,
    {
        if formats[i].is_srgb() {
            assert(formats@[i as int] == formats[i as int]);
            return formats[i];
        }
        i = i + 1;
    }
    formats[0]
}

/// The present mode to configure: `Fifo` (vsync) whenever the surface
/// offers it, else the first mode it offers.
pub fn choose_present_mode(modes: &Vec<PresentMode>) -> (r: PresentMode)
    requires
        modes@.len() > 0,
    ensures
        modes@.contains(PresentMode::Fifo) ==> r == PresentMode::Fifo,
        !modes@.contains(PresentMode::Fifo) ==> r == modes@[0],
{
    let mut i: usize = 0;
    while i < modes.len()
        invariant
            i <= modes@.len(),
            forall|j: int| 0 <= j < i ==> modes@[j] != PresentMode::Fifo,
        decreases modes@.len() - i,
    {
        if modes[i] == PresentMode::Fifo {
            return PresentMode::Fifo;
        }
        i = i + 1;
    }
    modes[0]
}

/// The multisampled color texture rendered into in place of the surface.
#[derive(Copy, Clone, Debug, PartialEq, Eq, Structural)]
pub struct MsaaTarget {
    pub width: u32,
    pub height: u32,
    pub sample_count: u32,
    pub format: TextureFormat,
}

/// The configuration of the window surface, as the backend keeps it.
#[derive(Copy, Clone, Debug, PartialEq, Eq, Structural)]
pub struct SurfaceState {
    pub width: u32,
    pub height: u32,
    pub format: TextureFormat,
    pub present_mode: PresentMode,
    pub msaa_sample_count: u32,
}

impl SurfaceState {
    /// A surface of the given size and configuration, without multisampling.
    pub fn new(width: u32, height: u32, format: TextureFormat, present_mode: PresentMode) -> (r: Self)
        ensures
            r == (SurfaceState { width, height, format, present_mode, msaa_sample_count: 1 }),
    {
        SurfaceState { width, height, format, present_mode, msaa_sample_count: 1 }
    }

    /// Current surface width in pixels.
    pub fn surface_width(&self) -> (r: u32)
        ensures r == self.width,
    {
        self.width
    }

    /// Current surface height in pixels.
    pub fn surface_height(&self) -> (r: u32)
        ensures r == self.height,
    {
        self.height
    }

    /// The format the surface was configured with.
    pub fn surface_format(&self) -> (r: TextureFormat)
        ensures r == self.format,
    {
        self.format
    }

    /// The sample count that rendering into the surface uses; `1` until
    /// [`set_msaa`](Self::set_msaa) is called.
    pub fn sample_count(&self) -> (r: u32)
        ensures r == self.msaa_sample_count,
    {
        self.msaa_sample_count
    }

    /// Takes the window's new size. A zero width or height (a minimized
    /// window) is ignored and nothing is reconfigured; otherwise the surface
    /// takes the new size and must be reconfigured (answer `true`).
    pub fn resize(&mut self, width: u32, height: u32) -> (r: bool)
        ensures
            r == (width != 0 && height != 0),
            r ==> *final(self) == (SurfaceState { width, height, ..*old(self) }),
            !r ==> *final(self) == *old(self),
    {
        if width == 0 || height == 0 {
            return false;
        }
        self.width = width;
        self.height = height;
        true
    }

    /// Turns multisampled rendering on (`sample_count > 1`) or off
    /// (`sample_count == 1`).
    pub fn set_msaa(&mut self, sample_count: u32)
        ensures
            *final(self) == (SurfaceState { msaa_sample_count: sample_count, ..*old(self) }),
    {
        self.msaa_sample_count = sample_count;
    }

    /// The multisampled color texture to render into, which resolves into
    /// the surface: there is one only while the sample count is above one,
    /// and it matches the surface's size and format.
    pub fn msaa_target(&self) -> (r: Option<MsaaTarget>)
        ensures
            self.msaa_sample_count <= 1 ==> r is None,
            self.msaa_sample_count > 1 ==> r == Some(MsaaTarget {
                width: self.width,
                height: self.height,
                sample_count: self.msaa_sample_count,
                format: self.format,
            }),
    {
        if self.msaa_sample_count <= 1 {
            None
        } else {
            Some(MsaaTarget {
                width: self.width,
                height: self.height,
                sample_count: self.msaa_sample_count,
                format: self.format,
            })
        }
    }
}

/// What asking the surface for its next texture gave back.
#[derive(Copy, Clone, Debug, PartialEq, Eq, Structural)]
pub enum SurfaceAcquire {
    Success,
    Suboptimal,
    Timeout,
    Occluded,
    Outdated,
    Lost,
    Validation,
}

/// What a frame does after an acquire.
#[derive(Copy, Clone, Debug, PartialEq, Eq, Structural)]
pub enum AcquireDecision {
    /// Render into the texture that came back.
    Render,
    /// Skip this frame and try again on the next.
    Transient,
    /// The surface cannot be rendered to.
    Fatal,
}

/// A texture that came back (even a suboptimal one) is rendered into; a
/// timeout, an occluded window or an outdated configuration skips the
/// frame; anything else is fatal.
pub fn classify_acquire(outcome: SurfaceAcquire) -> (r: AcquireDecision)
    ensures
        r == match outcome {
            SurfaceAcquire::Success | SurfaceAcquire::Suboptimal => AcquireDecision::Render,
            SurfaceAcquire::Timeout | SurfaceAcquire::Occluded | SurfaceAcquire::Outdated => AcquireDecision::Transient,
            _ => AcquireDecision::Fatal,
        },
{
    match outcome {
        SurfaceAcquire::Success | SurfaceAcquire::Suboptimal => AcquireDecision::Render,
        SurfaceAcquire::Timeout | SurfaceAcquire::Occluded | SurfaceAcquire::Outdated => AcquireDecision::Transient,
        _ => AcquireDecision::Fatal,
    }
}

/// Where a pass's color output goes.
#[derive(Copy, Clone, Debug, PartialEq, Eq, Structural)]
pub enum ColorRoute {
    /// Straight into the surface texture.
    Surface,
    /// Into the multisampled texture, resolved into the surface.
    MsaaResolvingToSurface,
    /// Into the pass's own attachment, with no resolve.
    Custom,
}

/// A pass's own attachment is used as it is; the default target is the
/// surface, through the multisampled texture while there is one.
pub fn route_color_target(custom: bool, msaa_active: bool) -> (r: ColorRoute)
    ensures
        custom ==> r == ColorRoute::Custom,
        !custom && msaa_active ==> r == ColorRoute::MsaaResolvingToSurface,
        !custom && !msaa_active ==> r == ColorRoute::Surface,
{
    if custom {
        ColorRoute::Custom
    } else if msaa_active {
        ColorRoute::MsaaResolvingToSurface
    } else {
        ColorRoute::Surface
    }
}

} // verus!
