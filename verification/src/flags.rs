//! Bitflag sets mirroring, bit for bit, the flag types of wgpu: converting one
//! into its wgpu counterpart is a plain `from_bits_truncate` of [`bits`].

use vstd::prelude::*;

verus! {

/// Which shader stage(s) a binding is visible from — bit-for-bit the layout of wgpu's `ShaderStages`.
#[derive(Copy, Clone, Debug, PartialEq, Eq, Hash, Structural)]
pub struct ShaderStages(pub u32);

impl ShaderStages {
    /// Not visible from any shader stage.
    pub fn none() -> (r: Self)
        ensures r.0 == 0,
    {
        ShaderStages(0)
    }

    /// Visible from the vertex shader of a render pipeline.
    pub fn vertex() -> (r: Self)
        ensures r.0 == 1,
    {
        ShaderStages(1)
    }

    /// Visible from the fragment shader of a render pipeline.
    pub fn fragment() -> (r: Self)
        ensures r.0 == 2,
    {
        ShaderStages(2)
    }

    /// Visible from the compute shader of a compute pipeline.
    pub fn compute() -> (r: Self)
        ensures r.0 == 4,
    {
        ShaderStages(4)
    }

    /// Visible from the vertex and fragment shaders of a render pipeline.
    pub fn vertex_fragment() -> (r: Self)
        ensures r.0 == 3,
    {
        ShaderStages(3)
    }

    /// Visible from the task shader of a mesh pipeline.
    pub fn task() -> (r: Self)
        ensures r.0 == 8,
    {
        ShaderStages(8)
    }

    /// Visible from the mesh shader of a mesh pipeline.
    pub fn mesh() -> (r: Self)
        ensures r.0 == 16,
    {
        ShaderStages(16)
    }

    /// Visible from the ray generation shader of a ray tracing pipeline.
    pub fn ray_generation() -> (r: Self)
        ensures r.0 == 32,
    {
        ShaderStages(32)
    }

    /// Visible from the ray any-hit shader of a ray tracing pipeline.
    pub fn any_hit() -> (r: Self)
        ensures r.0 == 64,
    {
        ShaderStages(64)
    }

    /// Visible from the ray closest-hit shader of a ray tracing pipeline.
    pub fn closest_hit() -> (r: Self)
        ensures r.0 == 128,
    {
        ShaderStages(128)
    }

    /// Visible from the ray miss shader of a ray tracing pipeline.
    pub fn miss() -> (r: Self)
        ensures r.0 == 256,
    {
        ShaderStages(256)
    }

    /// No flags set.
    pub fn empty() -> (r: Self)
        ensures r.0 == 0,
    {
        ShaderStages(0)
    }

    /// The raw bits, in wgpu's layout.
    pub fn bits(self) -> (r: u32)
        ensures r == self.0,
    {
        self.0
    }

    /// Whether every flag set in `other` is also set in `self`.
    pub fn contains(self, other: Self) -> (r: bool)
        ensures r == (self.0 & other.0 == other.0),
    {
        (self.0 & other.0) == other.0
    }

    /// Whether `self` and `other` share any set flag.
    pub fn intersects(self, other: Self) -> (r: bool)
        ensures r == (self.0 & other.0 != 0),
    {
        (self.0 & other.0) != 0
    }

    /// Adds every flag of `other` to `self` in place.
    pub fn insert(&mut self, other: Self)
        ensures final(self).0 == old(self).0 | other.0,
    {
        self.0 = self.0 | other.0;
    }
}

impl core::ops::BitOr for ShaderStages {
    type Output = Self;

    fn bitor(self, rhs: Self) -> (r: Self)
        ensures r.0 == self.0 | rhs.0,
    {
        ShaderStages(self.0 | rhs.0)
    }
}

impl vstd::std_specs::ops::BitOrSpecImpl for ShaderStages {
    open spec fn obeys_bitor_spec() -> bool {
        true
    }

    open spec fn bitor_req(self, rhs: ShaderStages) -> bool {
        true
    }

    open spec fn bitor_spec(self, rhs: ShaderStages) -> ShaderStages {
        ShaderStages(self.0 | rhs.0)
    }
}

/// Allowed usages of a buffer — bit-for-bit the layout of wgpu's `BufferUsages`.
#[derive(Copy, Clone, Debug, PartialEq, Eq, Hash, Structural)]
pub struct BufferUsages(pub u32);

impl BufferUsages {
    /// Mappable for reading on the CPU.
    pub fn map_read() -> (r: Self)
        ensures r.0 == 1,
    {
        BufferUsages(1)
    }

    /// Mappable for writing on the CPU.
    pub fn map_write() -> (r: Self)
        ensures r.0 == 2,
    {
        BufferUsages(2)
    }

    /// Usable as the source of a copy.
    pub fn copy_src() -> (r: Self)
        ensures r.0 == 4,
    {
        BufferUsages(4)
    }

    /// Usable as the destination of a copy or a queue write.
    pub fn copy_dst() -> (r: Self)
        ensures r.0 == 8,
    {
        BufferUsages(8)
    }

    /// Usable as an index buffer.
    pub fn index() -> (r: Self)
        ensures r.0 == 16,
    {
        BufferUsages(16)
    }

    /// Usable as a vertex buffer.
    pub fn vertex() -> (r: Self)
        ensures r.0 == 32,
    {
        BufferUsages(32)
    }

    /// Usable as a uniform buffer binding.
    pub fn uniform() -> (r: Self)
        ensures r.0 == 64,
    {
        BufferUsages(64)
    }

    /// Usable as a storage buffer binding.
    pub fn storage() -> (r: Self)
        ensures r.0 == 128,
    {
        BufferUsages(128)
    }

    /// Usable as the argument buffer of an indirect draw or dispatch.
    pub fn indirect() -> (r: Self)
        ensures r.0 == 256,
    {
        BufferUsages(256)
    }

    /// Usable as the destination of a query resolve.
    pub fn query_resolve() -> (r: Self)
        ensures r.0 == 512,
    {
        BufferUsages(512)
    }

    /// Usable as input for a bottom level acceleration structure build.
    pub fn blas_input() -> (r: Self)
        ensures r.0 == 1024,
    {
        BufferUsages(1024)
    }

    /// Usable as input for a top level acceleration structure build.
    pub fn tlas_input() -> (r: Self)
        ensures r.0 == 2048,
    {
        BufferUsages(2048)
    }

    /// No flags set.
    pub fn empty() -> (r: Self)
        ensures r.0 == 0,
    {
        BufferUsages(0)
    }

    /// The raw bits, in wgpu's layout.
    pub fn bits(self) -> (r: u32)
        ensures r == self.0,
    {
        self.0
    }

    /// Whether every flag set in `other` is also set in `self`.
    pub fn contains(self, other: Self) -> (r: bool)
        ensures r == (self.0 & other.0 == other.0),
    {
        (self.0 & other.0) == other.0
    }

    /// Whether `self` and `other` share any set flag.
    pub fn intersects(self, other: Self) -> (r: bool)
        ensures r == (self.0 & other.0 != 0),
    {
        (self.0 & other.0) != 0
    }

    /// Adds every flag of `other` to `self` in place.
    pub fn insert(&mut self, other: Self)
        ensures final(self).0 == old(self).0 | other.0,
    {
        self.0 = self.0 | other.0;
    }
}

impl core::ops::BitOr for BufferUsages {
    type Output = Self;

    fn bitor(self, rhs: Self) -> (r: Self)
        ensures r.0 == self.0 | rhs.0,
    {
        BufferUsages(self.0 | rhs.0)
    }
}

impl vstd::std_specs::ops::BitOrSpecImpl for BufferUsages {
    open spec fn obeys_bitor_spec() -> bool {
        true
    }

    open spec fn bitor_req(self, rhs: BufferUsages) -> bool {
        true
    }

    open spec fn bitor_spec(self, rhs: BufferUsages) -> BufferUsages {
        BufferUsages(self.0 | rhs.0)
    }
}

/// Allowed usages of a texture — bit-for-bit the layout of wgpu's `TextureUsages`.
#[derive(Copy, Clone, Debug, PartialEq, Eq, Hash, Structural)]
pub struct TextureUsages(pub u32);

impl TextureUsages {
    /// Usable as the source of a copy.
    pub fn copy_src() -> (r: Self)
        ensures r.0 == 1,
    {
        TextureUsages(1)
    }

    /// Usable as the destination of a copy or a queue write.
    pub fn copy_dst() -> (r: Self)
        ensures r.0 == 2,
    {
        TextureUsages(2)
    }

    /// Usable as a sampled texture binding.
    pub fn texture_binding() -> (r: Self)
        ensures r.0 == 4,
    {
        TextureUsages(4)
    }

    /// Usable as a storage texture binding.
    pub fn storage_binding() -> (r: Self)
        ensures r.0 == 8,
    {
        TextureUsages(8)
    }

    /// Usable as a render pass attachment.
    pub fn render_attachment() -> (r: Self)
        ensures r.0 == 16,
    {
        TextureUsages(16)
    }

    /// Usable with image atomics (a native-only feature).
    pub fn storage_atomic() -> (r: Self)
        ensures r.0 == 65536,
    {
        TextureUsages(65536)
    }

    /// Contents are not reused in another pass.
    pub fn transient() -> (r: Self)
        ensures r.0 == 131072,
    {
        TextureUsages(131072)
    }

    /// No flags set.
    pub fn empty() -> (r: Self)
        ensures r.0 == 0,
    {
        TextureUsages(0)
    }

    /// The raw bits, in wgpu's layout.
    pub fn bits(self) -> (r: u32)
        ensures r == self.0,
    {
        self.0
    }

    /// Whether every flag set in `other` is also set in `self`.
    pub fn contains(self, other: Self) -> (r: bool)
        ensures r == (self.0 & other.0 == other.0),
    {
        (self.0 & other.0) == other.0
    }

    /// Whether `self` and `other` share any set flag.
    pub fn intersects(self, other: Self) -> (r: bool)
        ensures r == (self.0 & other.0 != 0),
    {
        (self.0 & other.0) != 0
    }

    /// Adds every flag of `other` to `self` in place.
    pub fn insert(&mut self, other: Self)
        ensures final(self).0 == old(self).0 | other.0,
    {
        self.0 = self.0 | other.0;
    }
}

impl core::ops::BitOr for TextureUsages {
    type Output = Self;

    fn bitor(self, rhs: Self) -> (r: Self)
        ensures r.0 == self.0 | rhs.0,
    {
        TextureUsages(self.0 | rhs.0)
    }
}

impl vstd::std_specs::ops::BitOrSpecImpl for TextureUsages {
    open spec fn obeys_bitor_spec() -> bool {
        true
    }

    open spec fn bitor_req(self, rhs: TextureUsages) -> bool {
        true
    }

    open spec fn bitor_spec(self, rhs: TextureUsages) -> TextureUsages {
        TextureUsages(self.0 | rhs.0)
    }
}

/// Which color channels a render pipeline writes — bit-for-bit the layout of wgpu's `ColorWrites`.
#[derive(Copy, Clone, Debug, PartialEq, Eq, Hash, Structural)]
pub struct ColorWrites(pub u32);

impl ColorWrites {
    /// The red channel.
    pub fn red() -> (r: Self)
        ensures r.0 == 1,
    {
        ColorWrites(1)
    }

    /// The green channel.
    pub fn green() -> (r: Self)
        ensures r.0 == 2,
    {
        ColorWrites(2)
    }

    /// The blue channel.
    pub fn blue() -> (r: Self)
        ensures r.0 == 4,
    {
        ColorWrites(4)
    }

    /// The alpha channel.
    pub fn alpha() -> (r: Self)
        ensures r.0 == 8,
    {
        ColorWrites(8)
    }

    /// Red, green, and blue, but not alpha.
    pub fn color() -> (r: Self)
        ensures r.0 == 7,
    {
        ColorWrites(7)
    }

    /// Every channel.
    pub fn all() -> (r: Self)
        ensures r.0 == 15,
    {
        ColorWrites(15)
    }

    /// No flags set.
    pub fn empty() -> (r: Self)
        ensures r.0 == 0,
    {
        ColorWrites(0)
    }

    /// The raw bits, in wgpu's layout.
    pub fn bits(self) -> (r: u32)
        ensures r == self.0,
    {
        self.0
    }

    /// Whether every flag set in `other` is also set in `self`.
    pub fn contains(self, other: Self) -> (r: bool)
        ensures r == (self.0 & other.0 == other.0),
    {
        (self.0 & other.0) == other.0
    }

    /// Whether `self` and `other` share any set flag.
    pub fn intersects(self, other: Self) -> (r: bool)
        ensures r == (self.0 & other.0 != 0),
    {
        (self.0 & other.0) != 0
    }

    /// Adds every flag of `other` to `self` in place.
    pub fn insert(&mut self, other: Self)
        ensures final(self).0 == old(self).0 | other.0,
    {
        self.0 = self.0 | other.0;
    }
}

impl core::ops::BitOr for ColorWrites {
    type Output = Self;

    fn bitor(self, rhs: Self) -> (r: Self)
        ensures r.0 == self.0 | rhs.0,
    {
        ColorWrites(self.0 | rhs.0)
    }
}

impl vstd::std_specs::ops::BitOrSpecImpl for ColorWrites {
    open spec fn obeys_bitor_spec() -> bool {
        true
    }

    open spec fn bitor_req(self, rhs: ColorWrites) -> bool {
        true
    }

    open spec fn bitor_spec(self, rhs: ColorWrites) -> ColorWrites {
        ColorWrites(self.0 | rhs.0)
    }
}

impl Default for ColorWrites {
    /// Every channel, matching wgpu's default.
    fn default() -> (r: Self)
        ensures r.0 == 15,
    {
        ColorWrites(15)
    }
}

/// The union of two flag words contains each of them, `contains` is
/// reflexive, and `intersects` is symmetric; these hold for every flag type
/// above since each is a plain `u32` word.
pub proof fn lemma_flag_word_laws(a: u32, b: u32)
    ensures
        (a | b) & a == a,
        (a | b) & b == b,
        a & a == a,
        (a & b != 0) == (b & a != 0),
        a | b == b | a,
        a | 0 == a,
{
    assert((a | b) & a == a) by (bit_vector);
    assert((a | b) & b == b) by (bit_vector);
    assert(a & a == a) by (bit_vector);
    assert((a & b != 0) == (b & a != 0)) by (bit_vector);
    assert(a | b == b | a) by (bit_vector);
    assert(a | 0 == a) by (bit_vector);
}

} // verus!
