//! Draw-call vocabulary: index buffer widths and the argument records of
//! indirect draws, laid out byte for byte as the GPU reads them.

use vstd::prelude::*;

verus! {

/// Index buffer element width.
#[derive(Clone, Copy, Debug, PartialEq, Eq, Hash, Structural)]
pub enum IndexFormat {
    Uint16,
    Uint32,
}

/// The four little-endian bytes of `x`.
pub open spec fn spec_u32_le(x: u32) -> Seq<u8> {
    seq![(x % 256) as u8, ((x / 256) % 256) as u8, ((x / 65536) % 256) as u8, (x / 16777216) as u8]
}

/// Appends the four little-endian bytes of `x`.
fn push_u32_le(out: &mut Vec<u8>, x: u32)
    ensures final(out)@ == old(out)@ + spec_u32_le(x),
{
    out.push((x % 256) as u8);
    out.push(((x / 256) % 256) as u8);
    out.push(((x / 65536) % 256) as u8);
    out.push((x / 16777216) as u8);
    assert(out@ =~= old(out)@ + spec_u32_le(x));
}

/// The arguments of a non-indexed indirect draw, in the field order the
/// GPU reads them.
#[derive(Clone, Copy, Debug, Default, PartialEq, Eq, Structural)]
pub struct DrawIndirectArgs {
    pub vertex_count: u32,
    pub instance_count: u32,
    pub first_vertex: u32,
    pub first_instance: u32,
}

impl DrawIndirectArgs {
    /// The 16 bytes to write into an indirect buffer: each field as a
    /// little-endian `u32`, in declaration order.
    pub fn as_bytes(&self) -> (r: Vec<u8>)
        ensures
            r@ == spec_u32_le(self.vertex_count) + spec_u32_le(self.instance_count) + spec_u32_le(self.first_vertex)
                + spec_u32_le(self.first_instance),
            r@.len() == 16,
    {
        let mut out = Vec::new();
        push_u32_le(&mut out, self.vertex_count);
        push_u32_le(&mut out, self.instance_count);
        push_u32_le(&mut out, self.first_vertex);
        push_u32_le(&mut out, self.first_instance);
        out
    }
}

/// The arguments of an indexed indirect draw, in the field order the GPU
/// reads them.
#[derive(Clone, Copy, Debug, Default, PartialEq, Eq, Structural)]
pub struct DrawIndexedIndirectArgs {
    pub index_count: u32,
    pub instance_count: u32,
    pub first_index: u32,
    pub base_vertex: i32,
    pub first_instance: u32,
}

impl DrawIndexedIndirectArgs {
    /// The 20 bytes to write into an indirect buffer: each field as a
    /// little-endian 32-bit word (two's complement for `base_vertex`), in
    /// declaration order.
    pub fn as_bytes(&self) -> (r: Vec<u8>)
        ensures
            r@ == spec_u32_le(self.index_count) + spec_u32_le(self.instance_count) + spec_u32_le(self.first_index)
                + spec_u32_le(self.base_vertex as u32) + spec_u32_le(self.first_instance),
            r@.len() == 20,
    {
        let mut out = Vec::new();
        push_u32_le(&mut out, self.index_count);
        push_u32_le(&mut out, self.instance_count);
        push_u32_le(&mut out, self.first_index);
        push_u32_le(&mut out, self.base_vertex as u32);
        push_u32_le(&mut out, self.first_instance);
        out
    }
}

/// Reading a little-endian word back gives the value that was written.
pub proof fn lemma_u32_le_round_trip(x: u32)
    ensures
        spec_u32_le(x)[0] as int + 256 * spec_u32_le(x)[1] as int + 65536 * spec_u32_le(x)[2] as int
            + 16777216 * spec_u32_le(x)[3] as int == x as int,
{
}

} // verus!
