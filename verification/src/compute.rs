//! Compute pipeline descriptors: the [`Compute`] description of a compute
//! pipeline, its builder, and the checks it must pass before a pipeline is
//! built from it.

use vstd::prelude::*;
use crate::binding::{BindingEntry, spec_visibility, DuplicateBinding, first_duplicate_binding, bindings_unique, is_first_duplicate};
use crate::layout::{GroupEntry, GlobalLayoutPool, MultipleOwnGroups, assemble_group_layouts, check_own_groups, find_own_entries, at_most_one_own, has_own, own_entries_of, first_two_owns, slot_layout};

verus! {

/// The description of a compute pipeline, as a value.
pub struct ComputeView<L> {
    pub label: Option<&'static str>,
    pub shader_source: &'static str,
    pub entry_point: Option<&'static str>,
    pub groups: Seq<GroupEntry<L>>,
}

/// The defaults of a compute pass: entry point `cs_main`, no label, no groups.
pub open spec fn default_compute_view<L>(shader_source: &'static str) -> ComputeView<L> {
    ComputeView { label: None, shader_source, entry_point: Some("cs_main"), groups: Seq::empty() }
}

/// Describes a compute pipeline and its own bind group. Built only through
/// [`ComputeBuilder`]; `L` is the type of a built bind group layout.
pub struct Compute<L> {
    label: Option<&'static str>,
    shader_source: &'static str,
    entry_point: Option<&'static str>,
    groups: Vec<GroupEntry<L>>,
}

impl<L> View for Compute<L> {
    type V = ComputeView<L>;

    closed spec fn view(&self) -> ComputeView<L> {
        ComputeView {
            label: self.label,
            shader_source: self.shader_source,
            entry_point: self.entry_point,
            groups: self.groups@,
        }
    }
}

impl<L> Compute<L> {
    pub fn label(&self) -> (r: Option<&'static str>)
        ensures r == self@.label,
    {
        self.label
    }

    pub fn shader_source(&self) -> (r: &'static str)
        ensures r == self@.shader_source,
    {
        self.shader_source
    }

    pub fn entry_point(&self) -> (r: Option<&'static str>)
        ensures r == self@.entry_point,
    {
        self.entry_point
    }

    /// This pass's bind groups, in `@group(N)` order.
    pub fn entries(&self) -> (r: &Vec<GroupEntry<L>>)
        ensures r@ == self@.groups,
    {
        &self.groups
    }
}

/// Something worth warning about in a finished compute pass.
#[derive(Clone, Copy, Debug, PartialEq, Eq, Structural)]
pub enum ComputeWarning {
    /// No bind groups at all: the pass can read or write nothing.
    NoBindGroups,
}

/// Builds a [`Compute`]: start from [`new`](Self::new), chain the setters,
/// finish with [`build`](Self::build).
pub struct ComputeBuilder<L> {
    compute: Compute<L>,
}

impl<L> View for ComputeBuilder<L> {
    type V = ComputeView<L>;

    closed spec fn view(&self) -> ComputeView<L> {
        self.compute@
    }
}

impl<L> Default for ComputeBuilder<L> {
    /// No shader source yet, every other field at its default.
    fn default() -> (r: Self)
        ensures r@ == default_compute_view::<L>(""),
    {
        ComputeBuilder::new("")
    }
}

impl<L> ComputeBuilder<L> {
    /// Starts a compute pass with the given WGSL source.
    pub fn new(shader_source: &'static str) -> (r: Self)
        ensures r@ == default_compute_view::<L>(shader_source),
    {
        let r = ComputeBuilder {
            compute: Compute { label: None, shader_source, entry_point: Some("cs_main"), groups: Vec::new() },
        };
        assert(r@ =~= default_compute_view::<L>(shader_source));
        r
    }

    pub fn label(self, label: &'static str) -> (r: Self)
        ensures r@ == (ComputeView { label: Some(label), ..self@ }),
    {
        let mut c = self.compute;
        c.label = Some(label);
        ComputeBuilder { compute: c }
    }

    pub fn entry_point(self, entry: &'static str) -> (r: Self)
        ensures r@ == (ComputeView { entry_point: Some(entry), ..self@ }),
    {
        let mut c = self.compute;
        c.entry_point = Some(entry);
        ComputeBuilder { compute: c }
    }

    /// This pass's bind groups, in `@group(N)` order.
    pub fn entries(self, groups: Vec<GroupEntry<L>>) -> (r: Self)
        ensures r@ == (ComputeView { groups: groups@, ..self@ }),
    {
        let mut c = self.compute;
        c.groups = groups;
        ComputeBuilder { compute: c }
    }

    /// Warns about a pass with no bind groups at all.
    pub fn validate(&self) -> (r: Option<ComputeWarning>)
        ensures r == (if self@.groups.len() == 0 { Some(ComputeWarning::NoBindGroups) } else { None }),
    {
        if self.compute.groups.len() == 0 {
            Some(ComputeWarning::NoBindGroups)
        } else {
            None
        }
    }

    /// The finished compute pass.
    pub fn build(self) -> (r: Compute<L>)
        ensures r@ == self@,
    {
        self.compute
    }
}

/// Why a compute pass cannot be built into a pipeline.
#[derive(Clone, Copy, Debug)]
pub enum ComputeError {
    /// More than one [`GroupEntry::Own`] slot.
    MultipleOwnGroups(MultipleOwnGroups),
    /// An own entry not visible to exactly the compute stage.
    NotComputeOnly { entry: &'static str },
    /// Two own entries claim one `@binding(N)`.
    DuplicateBinding(DuplicateBinding),
}

/// Entry `k` of `entries` is the first not visible to exactly the compute
/// stage.
pub open spec fn is_first_not_compute_only(entries: Seq<BindingEntry>, k: int) -> bool {
    &&& 0 <= k < entries.len()
    &&& spec_visibility(entries[k].kind).0 != 4
    &&& forall|j: int| 0 <= j < k ==> spec_visibility(#[trigger] entries[j].kind).0 == 4
}

/// Every one of `entries` is visible to exactly the compute stage.
pub open spec fn all_compute_only(entries: Seq<BindingEntry>) -> bool {
    forall|k: int| 0 <= k < entries.len() ==> spec_visibility(#[trigger] entries[k].kind).0 == 4
}

/// The first entry (in order) not visible to exactly the compute stage.
pub fn first_not_compute_only(entries: &Vec<BindingEntry>) -> (r: Option<usize>)
    ensures
        match r {
            Some(i) => is_first_not_compute_only(entries@, i as int),
            None => all_compute_only(entries@),
        },
{
    let mut i: usize = 0;
    while i < entries.len()
        invariant
            i <= entries@.len(),
            forall|k: int| 0 <= k < i ==> spec_visibility(entries@[k].kind).0 == 4,
        decreases entries@.len() - i,
    {
        if entries[i].kind.visibility().bits() != 4 {
            return Some(i);
        }
        i = i + 1;
    }
    None
}

/// A compute pass a pipeline can be built from: at most one own group, and
/// an own group (if any) whose entries are all visible to exactly the
/// compute stage and claim no `@binding(N)` twice.
pub open spec fn compute_valid<L>(c: ComputeView<L>) -> bool {
    &&& at_most_one_own(c.groups)
    &&& has_own(c.groups) ==> all_compute_only(own_entries_of(c.groups)) && bindings_unique(own_entries_of(c.groups))
}

/// Checks everything about a compute pass that can be checked before
/// touching the device, in the order a pipeline build would hit each
/// problem: at most one own group, every own entry visible to exactly the
/// compute stage, and no `@binding(N)` claimed twice. On success, the own
/// group's entries (`None` when there is no own group).
pub fn validate_compute<'a, L>(compute: &'a Compute<L>) -> (r: Result<Option<&'a Vec<BindingEntry>>, ComputeError>)
    ensures
        r is Ok <==> compute_valid(compute@),
        match r {
            Err(ComputeError::MultipleOwnGroups(e)) => !at_most_one_own(compute@.groups) && first_two_owns(compute@.groups, e),
            _ => at_most_one_own(compute@.groups),
        },
        match r {
            Ok(None) => !has_own(compute@.groups),
            Ok(Some(entries)) => {
                &&& has_own(compute@.groups)
                &&& entries@ == own_entries_of(compute@.groups)
                &&& all_compute_only(entries@)
                &&& bindings_unique(entries@)
            },
            Err(ComputeError::NotComputeOnly { entry }) => {
                &&& has_own(compute@.groups)
                &&& exists|k: int| #[trigger] is_first_not_compute_only(own_entries_of(compute@.groups), k)
                    && own_entries_of(compute@.groups)[k].name == entry
            },
            Err(ComputeError::DuplicateBinding(d)) => {
                &&& has_own(compute@.groups)
                &&& all_compute_only(own_entries_of(compute@.groups))
                &&& is_first_duplicate(own_entries_of(compute@.groups), d)
            },
            _ => true,
        },
{
    assert(compute@.groups == compute.groups@);
    match check_own_groups(&compute.groups) {
        Ok(()) => {},
        Err(e) => return Err(ComputeError::MultipleOwnGroups(e)),
    }
    match find_own_entries(&compute.groups) {
        None => Ok(None),
        Some(entries) => {
            match first_not_compute_only(entries) {
                Some(k) => {
                    assert(is_first_not_compute_only(entries@, k as int));
                    assert(!all_compute_only(entries@));
                    return Err(ComputeError::NotComputeOnly { entry: entries[k].name });
                },
                None => {},
            }
            match first_duplicate_binding(entries) {
                Ok(()) => Ok(Some(entries)),
                Err(d) => Err(ComputeError::DuplicateBinding(d)),
            }
        },
    }
}

/// The pipeline-layout slots of a compute pass that passed
/// [`validate_compute`] and whose groups fit the device's
/// `max_bind_groups` (see
/// [`check_bind_group_count`](crate::layout::check_bind_group_count)):
/// position is the `@group(N)` index, `own_layout` (built from the own
/// group's entries) fills the own slot and the pool resolves every global
/// name. `None` while some global name is not registered yet.
pub fn build_compute_raw<'a, L>(
    compute: &'a Compute<L>,
    own_layout: &'a L,
    pool: &'a GlobalLayoutPool<L>,
    max_bind_groups: u32,
) -> (r: Option<Vec<&'a L>>)
    requires
        pool.well_formed(),
        compute_valid(compute@),
        compute@.groups.len() <= max_bind_groups,
    ensures
        match r {
            None => exists|i: int| 0 <= i < compute@.groups.len()
                && slot_layout(#[trigger] compute@.groups[i], *own_layout, *pool) is None,
            Some(slots) => {
                &&& slots@.len() == compute@.groups.len()
                &&& forall|i: int| 0 <= i < compute@.groups.len()
                    ==> slot_layout(#[trigger] compute@.groups[i], *own_layout, *pool) == Some(*slots@[i])
            },
        },
{
    assert(compute@.groups == compute.groups@);
    assemble_group_layouts(&compute.groups, own_layout, pool, max_bind_groups)
}

} // verus!
