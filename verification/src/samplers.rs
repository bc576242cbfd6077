//! The engine's fixed set of shared samplers: each [`SamplerKind`] names one
//! sampler configuration, built once and looked up by kind.

use vstd::prelude::*;
use crate::material::CompareFunction;

verus! {

/// A named, pre-built sampler configuration.
#[derive(Clone, Copy, Debug, PartialEq, Eq, Hash, Structural)]
pub enum SamplerKind {
    /// Linear filtering, repeating address mode, mipmapped.
    LinearRepeat,
    /// Linear filtering, edge-clamped, mipmapped.
    LinearClamp,
    /// Linear filtering, edge-clamped, base level only.
    LinearClampNoMip,
    /// Nearest-neighbor filtering, repeating address mode.
    Nearest,
    /// Nearest-neighbor filtering, clamped to an opaque white border where
    /// the platform supports border colors, edge-clamped otherwise.
    NearestClampBorder,
    /// Linear filtering, edge-clamped, comparing with `Less` — for shadow
    /// maps.
    CompareLess,
}

/// How texture coordinates outside `[0, 1]` are resolved.
#[derive(Clone, Copy, Debug, PartialEq, Eq, Hash, Structural)]
pub enum AddressMode {
    ClampToEdge,
    Repeat,
    MirrorRepeat,
    ClampToBorder,
}

/// Texel filtering.
#[derive(Clone, Copy, Debug, PartialEq, Eq, Hash, Structural)]
pub enum FilterMode {
    Nearest,
    Linear,
}

/// The color sampled outside the texture with [`AddressMode::ClampToBorder`].
#[derive(Clone, Copy, Debug, PartialEq, Eq, Hash, Structural)]
pub enum BorderColor {
    TransparentBlack,
    OpaqueBlack,
    OpaqueWhite,
    Zero,
}

/// Which mip levels a sampler may read.
#[derive(Clone, Copy, Debug, PartialEq, Eq, Hash, Structural)]
pub enum LodClamp {
    /// Every level (wgpu's default clamp of 0 to 32).
    AllLevels,
    /// Level 0 only (a clamp of 0 to 0).
    BaseLevelOnly,
}

/// A sampler configuration; every field not set by a kind keeps wgpu's
/// default (edge clamping, nearest filtering, all levels, no comparison,
/// no border color).
#[derive(Clone, Copy, Debug, PartialEq, Eq, Hash, Structural)]
pub struct SamplerDescriptor {
    pub address_mode: AddressMode,
    pub mag_filter: FilterMode,
    pub min_filter: FilterMode,
    pub mipmap_filter: FilterMode,
    pub lod_clamp: LodClamp,
    pub compare: Option<CompareFunction>,
    pub border_color: Option<BorderColor>,
}

/// The sampler each kind builds; `border_supported` tells whether the
/// platform supports border colors (WebGPU does not).
pub open spec fn spec_descriptor(kind: SamplerKind, border_supported: bool) -> SamplerDescriptor {
    let linear = SamplerDescriptor {
        address_mode: AddressMode::ClampToEdge,
        mag_filter: FilterMode::Linear,
        min_filter: FilterMode::Linear,
        mipmap_filter: FilterMode::Linear,
        lod_clamp: LodClamp::AllLevels,
        compare: None,
        border_color: None,
    };
    match kind {
        SamplerKind::LinearRepeat => SamplerDescriptor { address_mode: AddressMode::Repeat, ..linear },
        SamplerKind::LinearClamp => linear,
        SamplerKind::LinearClampNoMip => SamplerDescriptor { lod_clamp: LodClamp::BaseLevelOnly, ..linear },
        SamplerKind::Nearest => SamplerDescriptor {
            address_mode: AddressMode::Repeat,
            mag_filter: FilterMode::Nearest,
            min_filter: FilterMode::Nearest,
            ..linear
        },
        SamplerKind::NearestClampBorder => SamplerDescriptor {
            address_mode: if border_supported { AddressMode::ClampToBorder } else { AddressMode::ClampToEdge },
            mag_filter: FilterMode::Nearest,
            min_filter: FilterMode::Nearest,
            mipmap_filter: FilterMode::Nearest,
            lod_clamp: LodClamp::AllLevels,
            compare: None,
            border_color: if border_supported { Some(BorderColor::OpaqueWhite) } else { None },
        },
        SamplerKind::CompareLess => SamplerDescriptor { compare: Some(CompareFunction::Less), ..linear },
    }
}

/// What each kind of sampler is: only the repeating kinds (`LinearRepeat`,
/// `Nearest`) wrap, only the border kind on a platform with border colors
/// clamps to a border (opaque white), and every other kind clamps to the
/// edge; the two nearest kinds filter by nearest texel and all others
/// linearly; only the border kind picks the nearest mip level; only
/// `LinearClampNoMip` is held to the base level; only `CompareLess`
/// compares, with `Less`; and only the border kind depends on whether
/// border colors are supported.
pub proof fn lemma_sampler_kinds(kind: SamplerKind, border_supported: bool)
    ensures
        ({
            let d = spec_descriptor(kind, border_supported);
            &&& (d.address_mode == AddressMode::Repeat) <==> (kind == SamplerKind::LinearRepeat || kind == SamplerKind::Nearest)
            &&& (d.address_mode == AddressMode::ClampToBorder) <==> (kind == SamplerKind::NearestClampBorder && border_supported)
            &&& (d.address_mode == AddressMode::ClampToEdge) <==> !(kind == SamplerKind::LinearRepeat || kind == SamplerKind::Nearest
                || (kind == SamplerKind::NearestClampBorder && border_supported))
            &&& (d.mag_filter == FilterMode::Nearest) <==> (kind == SamplerKind::Nearest || kind == SamplerKind::NearestClampBorder)
            &&& d.min_filter == d.mag_filter
            &&& (d.mipmap_filter == FilterMode::Nearest) <==> kind == SamplerKind::NearestClampBorder
            &&& (d.lod_clamp == LodClamp::BaseLevelOnly) <==> kind == SamplerKind::LinearClampNoMip
            &&& (d.compare is Some) <==> kind == SamplerKind::CompareLess
            &&& d.compare is Some ==> d.compare == Some(CompareFunction::Less)
            &&& (d.border_color is Some) <==> (kind == SamplerKind::NearestClampBorder && border_supported)
            &&& d.border_color is Some ==> d.border_color == Some(BorderColor::OpaqueWhite)
            &&& kind != SamplerKind::NearestClampBorder ==> d == spec_descriptor(kind, !border_supported)
        }),
{
}

impl SamplerKind {
    /// The sampler configuration this kind builds. Where border colors are
    /// unsupported, `NearestClampBorder` clamps to the edge instead.
    pub fn descriptor(&self, border_supported: bool) -> (r: SamplerDescriptor)
        ensures r == spec_descriptor(*self, border_supported),
    {
        let linear = SamplerDescriptor {
            address_mode: AddressMode::ClampToEdge,
            mag_filter: FilterMode::Linear,
            min_filter: FilterMode::Linear,
            mipmap_filter: FilterMode::Linear,
            lod_clamp: LodClamp::AllLevels,
            compare: None,
            border_color: None,
        };
        match self {
            SamplerKind::LinearRepeat => SamplerDescriptor { address_mode: AddressMode::Repeat, ..linear },
            SamplerKind::LinearClamp => linear,
            SamplerKind::LinearClampNoMip => SamplerDescriptor { lod_clamp: LodClamp::BaseLevelOnly, ..linear },
            SamplerKind::Nearest => SamplerDescriptor {
                address_mode: AddressMode::Repeat,
                mag_filter: FilterMode::Nearest,
                min_filter: FilterMode::Nearest,
                ..linear
            },
            SamplerKind::NearestClampBorder => SamplerDescriptor {
                address_mode: if border_supported { AddressMode::ClampToBorder } else { AddressMode::ClampToEdge },
                mag_filter: FilterMode::Nearest,
                min_filter: FilterMode::Nearest,
                mipmap_filter: FilterMode::Nearest,
                lod_clamp: LodClamp::AllLevels,
                compare: None,
                border_color: if border_supported { Some(BorderColor::OpaqueWhite) } else { None },
            },
            SamplerKind::CompareLess => SamplerDescriptor { compare: Some(CompareFunction::Less), ..linear },
        }
    }

    /// This kind's slot among the shared samplers.
    pub fn index(&self) -> (r: usize)
        ensures r == spec_kind_index(*self), r < 6,
    {
        match self {
            SamplerKind::LinearRepeat => 0,
            SamplerKind::LinearClamp => 1,
            SamplerKind::LinearClampNoMip => 2,
            SamplerKind::Nearest => 3,
            SamplerKind::NearestClampBorder => 4,
            SamplerKind::CompareLess => 5,
        }
    }
}

/// The slot of each kind: its position in [`all_sampler_kinds`].
pub open spec fn spec_kind_index(kind: SamplerKind) -> usize {
    match kind {
        SamplerKind::LinearRepeat => 0,
        SamplerKind::LinearClamp => 1,
        SamplerKind::LinearClampNoMip => 2,
        SamplerKind::Nearest => 3,
        SamplerKind::NearestClampBorder => 4,
        SamplerKind::CompareLess => 5,
    }
}

/// Every sampler kind, each exactly once, in slot order.
pub fn all_sampler_kinds() -> (r: Vec<SamplerKind>)
    ensures
        r@.len() == 6,
        forall|i: int| 0 <= i < 6 ==> spec_kind_index(#[trigger] r@[i]) == i,
{
    let mut v = Vec::new();
    v.push(SamplerKind::LinearRepeat);
    v.push(SamplerKind::LinearClamp);
    v.push(SamplerKind::LinearClampNoMip);
    v.push(SamplerKind::Nearest);
    v.push(SamplerKind::NearestClampBorder);
    v.push(SamplerKind::CompareLess);
    v
}

/// One built sampler `S` per [`SamplerKind`], shared by every material:
/// every kind is present, so a lookup never misses.
pub struct GlobalSamplers<S> {
    samplers: Vec<S>,
}

impl<S> GlobalSamplers<S> {
    /// The sampler built for each kind, in slot order.
    pub closed spec fn spec_samplers(&self) -> Seq<S> {
        self.samplers@
    }

    pub open spec fn well_formed(&self) -> bool {
        self.spec_samplers().len() == 6
    }

    /// The shared samplers, given the sampler built for each kind in the
    /// order of [`all_sampler_kinds`].
    pub fn new(samplers: Vec<S>) -> (r: Self)
        requires samplers@.len() == 6,
        ensures r.well_formed(), r.spec_samplers() == samplers@,
    {
        GlobalSamplers { samplers }
    }

    /// The shared sampler of `kind`.
    pub fn get(&self, kind: SamplerKind) -> (r: &S)
        requires self.well_formed(),
        ensures *r == self.spec_samplers()[spec_kind_index(kind) as int],
    {
        &self.samplers[kind.index()]
    }
}

} // verus!
