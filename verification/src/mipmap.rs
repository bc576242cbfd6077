//! Mip chains: how many levels a texture gets, which usages that implies,
//! and the order in which the GPU mip generator downsamples each level of
//! each layer from the level above it.

use vstd::prelude::*;
use crate::flags::TextureUsages;
use crate::texture_format::TextureFormat;

verus! {

/// `floor(log2(n))` for `n >= 1` (and 0 for `n <= 1`).
pub open spec fn spec_log2_floor(n: nat) -> nat
    decreases n,
{
    if n <= 1 {
        0
    } else {
        1 + spec_log2_floor(n / 2)
    }
}

/// `2^e`.
pub open spec fn spec_pow2(e: nat) -> nat
    decreases e,
{
    if e == 0 {
        1
    } else {
        2 * spec_pow2((e - 1) as nat)
    }
}

/// The number of mip levels of a texture whose largest side is `size`: a
/// full chain down to 1x1 when mips are generated, a single level otherwise.
pub open spec fn spec_mip_count(size: u32, generate_mips: bool) -> nat {
    if generate_mips {
        spec_log2_floor(if size == 0 { 1 } else { size as nat }) + 1
    } else {
        1
    }
}

/// A full chain of `k + 1` levels halves the side `k` times:
/// `2^k <= n < 2^(k+1)` where `k = floor(log2(n))`.
pub proof fn lemma_log2_bounds(n: nat)
    requires
        n >= 1,
    ensures
        spec_pow2(spec_log2_floor(n)) <= n < spec_pow2(spec_log2_floor(n) + 1),
    decreases n,
{
    if n > 1 {
        lemma_log2_bounds(n / 2);
        let k = spec_log2_floor(n / 2);
        assert(spec_log2_floor(n) == k + 1);
        assert(spec_pow2(k + 1) == 2 * spec_pow2(k));
        assert(spec_pow2(k + 2) == 2 * spec_pow2(k + 1));
    }
}

/// The number of mip levels for a texture whose largest side is `size`.
pub fn mip_count(size: u32, generate_mips: bool) -> (r: u32)
    ensures
        r == spec_mip_count(size, generate_mips),
        r >= 1,
{
    if !generate_mips {
        return 1;
    }
    let mut n: u32 = if size == 0 { 1 } else { size };
    let mut levels: u32 = 1;
    proof {
        if n > 1 {
            lemma_log2_u32(n);
        }
    }
    while n > 1
        invariant
            n >= 1,
            levels >= 1,
            levels <= 32 - spec_log2_floor(n as nat),
            levels + spec_log2_floor(n as nat) == spec_mip_count(size, true),
        decreases n,
    {
        proof { lemma_log2_u32(n); }
        n = n / 2;
        levels = levels + 1;
    }
    levels
}

/// `floor(log2(n)) <= 31` for a `u32`, and halving lowers it by one.
proof fn lemma_log2_u32(n: u32)
    requires
        n > 1,
    ensures
        spec_log2_floor(n as nat) == spec_log2_floor((n / 2) as nat) + 1,
        spec_log2_floor(n as nat) <= 31,
{
    lemma_log2_bounds(n as nat);
    let k = spec_log2_floor(n as nat);
    if k >= 32 {
        lemma_pow2_monotone(32, k);
        assert(spec_pow2(32) == 0x1_0000_0000) by {
            reveal_with_fuel(spec_pow2, 33);
        }
    }
}

proof fn lemma_pow2_monotone(a: nat, b: nat)
    requires
        a <= b,
    ensures
        spec_pow2(a) <= spec_pow2(b),
    decreases b - a,
{
    if a < b {
        lemma_pow2_monotone(a, (b - 1) as nat);
        assert(spec_pow2(b) == 2 * spec_pow2((b - 1) as nat));
    }
}

/// The usage of a texture with `mip_count` levels: sampled and written
/// from the CPU, plus render-attachment when the mip generator renders into
/// levels beyond the first or when the texture is an empty render target.
pub open spec fn spec_texture_usage(mip_count: u32, render_target: bool) -> u32 {
    if mip_count > 1 || render_target {
        4u32 | 2u32 | 16u32
    } else {
        4u32 | 2u32
    }
}

/// The usage flags of a texture with `mip_count` levels; `render_target`
/// marks a texture created without source data, to be rendered into.
pub fn texture_usage(mip_count: u32, render_target: bool) -> (r: TextureUsages)
    ensures r.0 == spec_texture_usage(mip_count, render_target),
{
    let base = TextureUsages::texture_binding() | TextureUsages::copy_dst();
    if mip_count > 1 || render_target {
        base | TextureUsages::render_attachment()
    } else {
        base
    }
}

/// A texture created without source data can always be rendered into,
/// whatever its mip count; one with source data is a render attachment
/// only when the mip generator has levels to render. Either way it can be
/// sampled and written from the CPU.
pub proof fn lemma_render_target_usage(mip_count: u32)
    ensures
        spec_texture_usage(mip_count, true) & 16u32 == 16u32,
        (spec_texture_usage(mip_count, false) & 16u32 == 16u32) <==> mip_count > 1,
        spec_texture_usage(mip_count, true) & 6u32 == 6u32,
        spec_texture_usage(mip_count, false) & 6u32 == 6u32,
{
    assert((4u32 | 2u32 | 16u32) & 16u32 == 16u32) by (bit_vector);
    assert((4u32 | 2u32) & 16u32 == 0u32) by (bit_vector);
    assert((4u32 | 2u32 | 16u32) & 6u32 == 6u32) by (bit_vector);
    assert((4u32 | 2u32) & 6u32 == 6u32) by (bit_vector);
}

/// The formats the mip generator can downsample.
pub open spec fn spec_mip_supported(format: TextureFormat) -> bool {
    format == TextureFormat::Rgba8Unorm || format == TextureFormat::Rgba8UnormSrgb
        || format == TextureFormat::Rgba16Float || format == TextureFormat::Rgba32Float
}

/// How the mip generator samples the level above: `None` for a format it
/// cannot downsample; `Some(true)` for a filtered (linear) blit,
/// `Some(false)` for `Rgba32Float`, which needs an extra device feature to
/// be filtered and so is sampled nearest.
pub fn mip_blit_filtering(format: TextureFormat) -> (r: Option<bool>)
    ensures
        r is Some <==> spec_mip_supported(format),
        r == Some(false) <==> format == TextureFormat::Rgba32Float,
{
    match format {
        TextureFormat::Rgba8Unorm | TextureFormat::Rgba8UnormSrgb | TextureFormat::Rgba16Float => Some(true),
        TextureFormat::Rgba32Float => Some(false),
        _ => None,
    }
}

/// One downsampling step: level `level - 1` of `layer` is blitted into
/// level `level`.
#[derive(Clone, Copy, Debug, PartialEq, Eq, Structural)]
pub struct MipBlit {
    pub layer: u32,
    pub level: u32,
}

/// The downsampling steps for `layer_count` layers of `mip_count` levels:
/// layer by layer, each level from 1 up in order, so a level is always
/// written before it is read as the source of the next.
pub open spec fn spec_mip_blits(mip_count: u32, layer_count: u32) -> Seq<MipBlit> {
    if mip_count <= 1 {
        Seq::empty()
    } else {
        Seq::new((layer_count * (mip_count - 1)) as nat, |i: int| MipBlit {
            layer: (i / (mip_count - 1) as int) as u32,
            level: (i % (mip_count - 1) as int + 1) as u32,
        })
    }
}

/// The ordered downsampling steps for a texture with `layer_count` layers
/// (1 for a 2D texture, 6 for a cubemap) and `mip_count` levels.
pub fn mip_blits(mip_count: u32, layer_count: u32) -> (r: Vec<MipBlit>)
    requires
        layer_count * mip_count <= usize::MAX,
    ensures
        r@ == spec_mip_blits(mip_count, layer_count),
{
    let mut out: Vec<MipBlit> = Vec::new();
    if mip_count <= 1 {
        assert(out@ =~= spec_mip_blits(mip_count, layer_count));
        return out;
    }
    let per = mip_count - 1;
    let mut layer: u32 = 0;
    while layer < layer_count
        invariant
            mip_count > 1,
            per == mip_count - 1,
            layer <= layer_count,
            out@.len() == layer * per,
            forall|i: int| 0 <= i < out@.len() ==> out@[i] == (MipBlit {
                layer: (i / per as int) as u32,
                level: (i % per as int + 1) as u32,
            }),
        decreases layer_count - layer,
    {
        let mut level: u32 = 1;
        while level < mip_count
            invariant
                mip_count > 1,
                per == mip_count - 1,
                layer < layer_count,
                1 <= level <= mip_count,
                out@.len() == layer * per + level - 1,
                forall|i: int| 0 <= i < out@.len() ==> out@[i] == (MipBlit {
                    layer: (i / per as int) as u32,
                    level: (i % per as int + 1) as u32,
                }),
            decreases mip_count - level,
        {
            let ghost i = out@.len() as int;
            proof {
                assert(i == layer * per + (level - 1));
                assert(i / per as int == layer as int && i % per as int == level - 1) by (nonlinear_arith)
                    requires i == layer * per + (level - 1), 0 <= level - 1 < per, per > 0, layer >= 0;
            }
            out.push(MipBlit { layer, level });
            level = level + 1;
        }
        assert(out@.len() == (layer + 1) * per) by (nonlinear_arith)
            requires out@.len() == layer * per + mip_count - 1, per == mip_count - 1;
        layer = layer + 1;
    }
    assert(out@ =~= spec_mip_blits(mip_count, layer_count));
    out
}

} // verus!
