//! Material instances given directly as a descriptor, whose entries are
//! bound in list order: an entry's binding number is its position.

use vstd::prelude::*;
use crate::binding::BindingEntry;
use crate::samplers::SamplerKind;
use crate::text::str_eq;

verus! {

/// A resource of a material instance descriptor, by asset id.
#[derive(Clone, Debug, PartialEq, Eq, Hash)]
pub enum MaterialInstanceBindingEntry {
    Texture(u64),
    TextureArray(u64),
    Cubemap(u64),
    Sampler(SamplerKind),
    Uniform(Vec<u8>),
    Storage(Vec<u8>),
}

/// A material instance given directly as the material's id and its named
/// resources.
pub struct MaterialInstanceDescriptor {
    pub material: u64,
    pub params: Vec<(&'static str, MaterialInstanceBindingEntry)>,
}

/// The position of the first of `entries` named `name`.
pub open spec fn first_named(entries: Seq<BindingEntry>, name: Seq<char>, p: int) -> bool {
    &&& 0 <= p < entries.len()
    &&& entries[p].name@ == name
    &&& forall|k: int| 0 <= k < p ==> entries[k].name@ != name
}

/// The binding number of `name` for a descriptor whose entries are bound
/// in list order: the position of the first entry with that name, as a
/// `u32` (cut to its low 32 bits, as a cast does).
pub fn binding_index(entries: &Vec<BindingEntry>, name: &str) -> (r: Option<u32>)
    ensures
        match r {
            Some(b) => exists|p: int| #[trigger] first_named(entries@, name@, p) && b == p as u32,
            None => forall|k: int| 0 <= k < entries@.len() ==> entries@[k].name@ != name@,
        },
{
    let mut i: usize = 0;
    while i < entries.len()
        invariant
            i <= entries@.len(),
            forall|k: int| 0 <= k < i ==> entries@[k].name@ != name@,
        decreases entries@.len() - i,
    {
        if str_eq(entries[i].name, name) {
            assert(first_named(entries@, name@, i as int));
            return Some(i as u32);
        }
        i = i + 1;
    }
    None
}

} // verus!
