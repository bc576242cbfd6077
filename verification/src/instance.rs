//! Material and compute instances: the concrete resource bound under each
//! named entry of a target's own bind group, and how each name resolves to
//! its `@binding(N)`. Assets are referred to by their numeric handle id.

use vstd::prelude::*;
use crate::binding::BindingEntry;
use crate::flags::BufferUsages;
use crate::samplers::SamplerKind;
use crate::text::str_eq;

verus! {

/// A concrete resource to bind under one named entry of an instance's
/// target. Textures, arrays and cubemaps are given by the id of their
/// source asset.
#[derive(Clone, Debug, PartialEq, Eq, Hash)]
pub enum BindingInstanceEntry {
    Texture(u64),
    TextureArray(u64),
    Cubemap(u64),
    /// A sampler from the shared sampler set.
    Sampler(SamplerKind),
    /// Bytes uploaded into a uniform buffer owned by the instance.
    Uniform(Vec<u8>),
    /// Bytes uploaded into a storage buffer owned by the instance.
    Storage(Vec<u8>),
}

/// The `@binding(N)` of the first entry named `name`.
pub open spec fn spec_binding_index(entries: Seq<BindingEntry>, name: Seq<char>) -> Option<u32>
    decreases entries.len(),
{
    if entries.len() == 0 {
        None
    } else if entries[0].name@ == name {
        Some(entries[0].binding)
    } else {
        spec_binding_index(entries.drop_first(), name)
    }
}

/// Looks up the `@binding(N)` a target declared under `name`: the binding
/// of the first entry with that name, `None` when no entry has it.
pub fn binding_index(entries: &Vec<BindingEntry>, name: &str) -> (r: Option<u32>)
    ensures r == spec_binding_index(entries@, name@),
{
    let mut i: usize = 0;
    assert(entries@.subrange(0, entries@.len() as int) =~= entries@);
    while i < entries.len()
        invariant
            i <= entries@.len(),
            spec_binding_index(entries@, name@) == spec_binding_index(entries@.subrange(i as int, entries@.len() as int), name@),
        decreases entries@.len() - i,
    {
        let ghost rest = entries@.subrange(i as int, entries@.len() as int);
        assert(rest.drop_first() =~= entries@.subrange(i + 1, entries@.len() as int));
        if str_eq(entries[i].name, name) {
            return Some(entries[i].binding);
        }
        i = i + 1;
    }
    assert(entries@.subrange(i as int, entries@.len() as int) =~= Seq::<BindingEntry>::empty());
    None
}

/// An instance, as a value: the target's id and the `(name, resource)`
/// pairs in the order they were added.
pub struct BindingInstanceView {
    pub target: u64,
    pub params: Seq<(&'static str, BindingInstanceEntry)>,
}

/// Source data of a bound instance of a material or compute pass: which
/// target to bind against, and the resource for each named entry.
pub struct BindingInstance {
    target: u64,
    params: Vec<(&'static str, BindingInstanceEntry)>,
}

impl View for BindingInstance {
    type V = BindingInstanceView;

    closed spec fn view(&self) -> BindingInstanceView {
        BindingInstanceView { target: self.target, params: self.params@ }
    }
}

/// Something suspicious about an instance.
#[derive(Clone, Copy, Debug, PartialEq, Eq, Structural)]
pub enum InstanceWarning {
    /// No resources at all: the instance binds nothing.
    NoParams,
}

/// Builds a [`BindingInstance`] one named resource at a time.
pub struct BindingInstanceBuilder {
    instance: BindingInstance,
}

impl View for BindingInstanceBuilder {
    type V = BindingInstanceView;

    closed spec fn view(&self) -> BindingInstanceView {
        self.instance@
    }
}

impl BindingInstanceBuilder {
    /// An instance of the target with id `target`, binding nothing yet.
    pub fn new(target: u64) -> (r: Self)
        ensures r@ == (BindingInstanceView { target, params: Seq::empty() }),
    {
        let r = BindingInstanceBuilder { instance: BindingInstance { target, params: Vec::new() } };
        assert(r@.params =~= Seq::<(&'static str, BindingInstanceEntry)>::empty());
        r
    }

    /// Binds `entry` under `name`.
    pub fn with_param(self, name: &'static str, entry: BindingInstanceEntry) -> (r: Self)
        ensures r@ == (BindingInstanceView { target: self@.target, params: self@.params.push((name, entry)) }),
    {
        let mut i = self.instance;
        i.params.push((name, entry));
        BindingInstanceBuilder { instance: i }
    }

    /// Binds the texture with id `handle` under `name`.
    pub fn with_texture(self, name: &'static str, handle: u64) -> (r: Self)
        ensures
            r@ == (BindingInstanceView {
                target: self@.target,
                params: self@.params.push((name, BindingInstanceEntry::Texture(handle))),
            }),
    {
        self.with_param(name, BindingInstanceEntry::Texture(handle))
    }

    /// Binds the texture array with id `handle` under `name`.
    pub fn with_texture_array(self, name: &'static str, handle: u64) -> (r: Self)
        ensures
            r@ == (BindingInstanceView {
                target: self@.target,
                params: self@.params.push((name, BindingInstanceEntry::TextureArray(handle))),
            }),
    {
        self.with_param(name, BindingInstanceEntry::TextureArray(handle))
    }

    /// Binds the cubemap with id `handle` under `name`.
    pub fn with_cubemap(self, name: &'static str, handle: u64) -> (r: Self)
        ensures
            r@ == (BindingInstanceView {
                target: self@.target,
                params: self@.params.push((name, BindingInstanceEntry::Cubemap(handle))),
            }),
    {
        self.with_param(name, BindingInstanceEntry::Cubemap(handle))
    }

    /// Binds the shared sampler of `kind` under `name`.
    pub fn with_sampler(self, name: &'static str, kind: SamplerKind) -> (r: Self)
        ensures
            r@ == (BindingInstanceView {
                target: self@.target,
                params: self@.params.push((name, BindingInstanceEntry::Sampler(kind))),
            }),
    {
        self.with_param(name, BindingInstanceEntry::Sampler(kind))
    }

    /// Binds `data` as a uniform buffer owned by the instance.
    pub fn with_uniform(self, name: &'static str, data: Vec<u8>) -> (r: Self)
        ensures
            r@ == (BindingInstanceView {
                target: self@.target,
                params: self@.params.push((name, BindingInstanceEntry::Uniform(data))),
            }),
    {
        self.with_param(name, BindingInstanceEntry::Uniform(data))
    }

    /// Binds `data` as a storage buffer owned by the instance.
    pub fn with_storage(self, name: &'static str, data: Vec<u8>) -> (r: Self)
        ensures
            r@ == (BindingInstanceView {
                target: self@.target,
                params: self@.params.push((name, BindingInstanceEntry::Storage(data))),
            }),
    {
        self.with_param(name, BindingInstanceEntry::Storage(data))
    }

    /// Warns about an instance that binds nothing.
    pub fn validate(&self) -> (r: Option<InstanceWarning>)
        ensures r == (if self@.params.len() == 0 { Some(InstanceWarning::NoParams) } else { None }),
    {
        if self.instance.params.len() == 0 {
            Some(InstanceWarning::NoParams)
        } else {
            None
        }
    }

    /// The finished instance.
    pub fn build(self) -> (r: BindingInstance)
        ensures r@ == self@,
    {
        self.instance
    }
}

/// The usage of the buffer an instance owns for a uniform or storage
/// entry: the binding type plus `COPY_DST` (updates) and `COPY_SRC` (reading
/// results back); `None` for entries that own no buffer.
pub open spec fn spec_owned_buffer_usage(entry: BindingInstanceEntry) -> Option<u32> {
    match entry {
        BindingInstanceEntry::Uniform(_) => Some(64u32 | 8u32 | 4u32),
        BindingInstanceEntry::Storage(_) => Some(128u32 | 8u32 | 4u32),
        _ => None,
    }
}

/// The usage flags of the buffer owned for `entry`, if it owns one.
pub fn owned_buffer_usage(entry: &BindingInstanceEntry) -> (r: Option<BufferUsages>)
    ensures
        match r {
            Some(u) => spec_owned_buffer_usage(*entry) == Some(u.0),
            None => spec_owned_buffer_usage(*entry) is None,
        },
{
    match entry {
        BindingInstanceEntry::Uniform(_) => Some(BufferUsages::uniform() | BufferUsages::copy_dst() | BufferUsages::copy_src()),
        BindingInstanceEntry::Storage(_) => Some(BufferUsages::storage() | BufferUsages::copy_dst() | BufferUsages::copy_src()),
        _ => None,
    }
}

impl BindingInstance {
    pub fn target(&self) -> (r: u64)
        ensures r == self@.target,
    {
        self.target
    }

    pub fn params(&self) -> (r: &Vec<(&'static str, BindingInstanceEntry)>)
        ensures r@ == self@.params,
    {
        &self.params
    }

    /// The `@binding(N)` each resource is bound at, in order, found by name
    /// among the target's entries; `None` as soon as one name matches no
    /// entry (the upload is retried later).
    pub fn bindings(&self, entries: &Vec<BindingEntry>) -> (r: Option<Vec<u32>>)
        ensures
            match r {
                Some(b) => b@.len() == self@.params.len()
                    && forall|i: int| 0 <= i < b@.len() ==> spec_binding_index(entries@, self@.params[i].0@) == Some(#[trigger] b@[i]),
                None => exists|i: int| 0 <= i < self@.params.len()
                    && spec_binding_index(entries@, (#[trigger] self@.params[i]).0@) is None,
            },
    {
        let mut out: Vec<u32> = Vec::new();
        let mut i: usize = 0;
        while i < self.params.len()
            invariant
                i <= self.params@.len(),
                out@.len() == i,
                forall|k: int| 0 <= k < i ==> spec_binding_index(entries@, self.params@[k].0@) == Some(#[trigger] out@[k]),
            decreases self.params@.len() - i,
        {
            match binding_index(entries, self.params[i].0) {
                Some(b) => out.push(b),
                None => {
                    assert(spec_binding_index(entries@, self@.params[i as int].0@) is None);
                    return None;
                },
            }
            i = i + 1;
        }
        Some(out)
    }
}

/// The position of the first item named `name`, used to find an
/// instance's owned buffer by the name it was bound under.
pub fn find_by_name<R>(items: &Vec<(&'static str, R)>, name: &str) -> (r: Option<usize>)
    ensures
        match r {
            Some(i) => (i as int) < items@.len() && items@[i as int].0@ == name@
                && forall|k: int| 0 <= k < i ==> items@[k].0@ != name@,
            None => forall|k: int| 0 <= k < items@.len() ==> items@[k].0@ != name@,
        },
{
    let mut i: usize = 0;
    while i < items.len()
        invariant
            i <= items@.len(),
            forall|k: int| 0 <= k < i ==> items@[k].0@ != name@,
        decreases items@.len() - i,
    {
        if str_eq(items[i].0, name) {
            return Some(i);
        }
        i = i + 1;
    }
    None
}

} // verus!
