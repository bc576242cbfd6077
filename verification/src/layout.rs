//! The `@group(N)` slots of a material or compute pipeline layout: a
//! pipeline's own bind group, an already-built layout, or a layout looked up
//! by name in a shared pool. `L` is the type of a built bind group layout.

use vstd::prelude::*;
use crate::binding::BindingEntry;
use crate::text::str_eq;

verus! {

/// One `@group(N)` slot; its position in the list *is* its `@group(N)`.
pub enum GroupEntry<L> {
    /// This pipeline's own bind group entries (at most one per pipeline).
    Own(Vec<BindingEntry>),
    /// An already-built layout occupying this position directly.
    Layout(L),
    /// A layout looked up by name in the [`GlobalLayoutPool`] when the
    /// pipeline is built.
    Global(&'static str),
}

/// A named pool of bind group layouts shared across materials and compute
/// passes. Every name is registered at most once.
pub struct GlobalLayoutPool<L> {
    entries: Vec<(&'static str, L)>,
}

/// The names registered in a pool, in registration order.
pub open spec fn pool_names<L>(entries: Seq<(&'static str, L)>) -> Seq<Seq<char>> {
    entries.map_values(|e: (&'static str, L)| e.0@)
}

impl<L> GlobalLayoutPool<L> {
    /// The `(name, layout)` registrations, in order.
    pub closed spec fn spec_entries(&self) -> Seq<(&'static str, L)> {
        self.entries@
    }

    /// The registered names, in order.
    pub open spec fn spec_names(&self) -> Seq<Seq<char>> {
        pool_names(self.spec_entries())
    }

    /// No name is registered twice.
    pub open spec fn well_formed(&self) -> bool {
        self.spec_names().no_duplicates()
    }

    /// Whether `name` is registered.
    pub open spec fn spec_contains(&self, name: Seq<char>) -> bool {
        self.spec_names().contains(name)
    }

    /// The layout registered under `name`, if any.
    pub open spec fn spec_get(&self, name: Seq<char>) -> Option<L> {
        if self.spec_contains(name) {
            Some(self.spec_entries()[self.spec_names().index_of(name)].1)
        } else {
            None
        }
    }

    /// An empty pool.
    pub fn new() -> (r: Self)
        ensures
            r.well_formed(),
            r.spec_entries() == Seq::<(&'static str, L)>::empty(),
    {
        GlobalLayoutPool { entries: Vec::new() }
    }

    /// Whether a layout is registered under `name`.
    pub fn is_registered(&self, name: &str) -> (r: bool)
        ensures r == self.spec_contains(name@),
    {
        self.position(name).is_some()
    }

    /// The position of `name` among the registrations.
    fn position(&self, name: &str) -> (r: Option<usize>)
        ensures
            match r {
                Some(i) => (i as int) < self.spec_names().len() && self.spec_names()[i as int] == name@
                    && forall|k: int| 0 <= k < i ==> self.spec_names()[k] != name@,
                None => !self.spec_contains(name@),
            },
    {
        let mut i: usize = 0;
        while i < self.entries.len()
            invariant
                i <= self.entries@.len(),
                forall|k: int| 0 <= k < i ==> self.spec_names()[k] != name@,
            decreases self.entries@.len() - i,
        {
            if str_eq(self.entries[i].0, name) {
                return Some(i);
            }
            i = i + 1;
        }
        proof {
            if self.spec_contains(name@) {
                let k = choose|k: int| 0 <= k < self.spec_names().len() && self.spec_names()[k] == name@;
            }
        }
        None
    }

    /// Registers `layout` under `name`. A name may be registered only once:
    /// a second registration is almost always two sources using one name by
    /// mistake, so callers check [`is_registered`](Self::is_registered) first.
    pub fn register(&mut self, name: &'static str, layout: L)
        requires
            old(self).well_formed(),
            !old(self).spec_contains(name@),
        ensures
            final(self).well_formed(),
            final(self).spec_entries() == old(self).spec_entries().push((name, layout)),
    {
        let ghost old_names = self.spec_names();
        self.entries.push((name, layout));
        assert(self.spec_names() =~= old_names.push(name@));
    }

    /// The layout registered under `name`, if any.
    pub fn get(&self, name: &str) -> (r: Option<&L>)
        requires self.well_formed(),
        ensures
            match r {
                Some(l) => self.spec_get(name@) == Some(*l),
                None => self.spec_get(name@) is None,
            },
    {
        match self.position(name) {
            Some(i) => {
                proof {
                    assert(self.spec_names().contains(name@));
                    lemma_index_of_unique(self.spec_names(), name@, i as int);
                }
                Some(&self.entries[i].1)
            },
            None => None,
        }
    }
}

/// In a duplicate-free sequence, the position of a value is its only
/// position.
proof fn lemma_index_of_unique(s: Seq<Seq<char>>, v: Seq<char>, i: int)
    requires
        s.no_duplicates(),
        0 <= i < s.len(),
        s[i] == v,
    ensures
        s.index_of(v) == i,
{
    assert(s.contains(v));
    let j = s.index_of(v);
    assert(s[j] == v);
}

/// A registration followed by a lookup of the same name gives back the
/// registered layout, and leaves every other name's lookup unchanged.
pub proof fn lemma_register_then_get<L>(before: GlobalLayoutPool<L>, after: GlobalLayoutPool<L>, name: &'static str, layout: L, other: Seq<char>)
    requires
        before.well_formed(),
        !before.spec_contains(name@),
        after.spec_entries() == before.spec_entries().push((name, layout)),
    ensures
        after.well_formed(),
        after.spec_get(name@) == Some(layout),
        other != name@ ==> after.spec_get(other) == before.spec_get(other),
{
    let bn = before.spec_names();
    let an = after.spec_names();
    assert(an =~= bn.push(name@));
    assert(an[bn.len() as int] == name@);
    lemma_index_of_unique(an, name@, bn.len() as int);
    if other != name@ {
        if before.spec_contains(other) {
            let i = bn.index_of(other);
            assert(bn[i] == other);
            assert(an[i] == other);
            lemma_index_of_unique(an, other, i);
            lemma_index_of_unique(bn, other, i);
        } else {
            if an.contains(other) {
                let k = choose|k: int| 0 <= k < an.len() && an[k] == other;
                assert(bn[k] == other);
            }
        }
    }
}

/// Which kind of pipeline a layout is assembled for; used in messages.
#[derive(Clone, Copy, Debug, PartialEq, Eq, Structural)]
pub enum PipelineKind {
    Material,
    Compute,
}

impl PipelineKind {
    /// The noun used for this pipeline kind in messages.
    pub fn noun(&self) -> (r: &'static str)
        ensures
            *self == PipelineKind::Material ==> r@ == "material"@,
            *self == PipelineKind::Compute ==> r@ == "compute pass"@,
    {
        proof {
            reveal_strlit("material");
            reveal_strlit("compute pass");
        }
        match self {
            PipelineKind::Material => "material",
            PipelineKind::Compute => "compute pass",
        }
    }
}

/// A list of groups with more than one [`GroupEntry::Own`] slot: `first`
/// and `second` are the positions of the first two.
#[derive(Clone, Copy, Debug, PartialEq, Eq, Structural)]
pub struct MultipleOwnGroups {
    pub first: usize,
    pub second: usize,
}

/// A pipeline needing more bind groups than the device supports.
#[derive(Clone, Copy, Debug, PartialEq, Eq, Structural)]
pub struct TooManyBindGroups {
    pub needed: usize,
    pub max_bind_groups: u32,
}

/// Group `i` is this pipeline's own bind group.
pub open spec fn is_own<L>(g: GroupEntry<L>) -> bool {
    g is Own
}

/// No two of `groups` are own groups.
pub open spec fn at_most_one_own<L>(groups: Seq<GroupEntry<L>>) -> bool {
    forall|i: int, j: int| 0 <= i < j < groups.len() ==> !(is_own(#[trigger] groups[i]) && is_own(#[trigger] groups[j]))
}

/// Some group is an own group.
pub open spec fn has_own<L>(groups: Seq<GroupEntry<L>>) -> bool {
    exists|i: int| 0 <= i < groups.len() && is_own(#[trigger] groups[i])
}

/// The entries of the own group, for a list with exactly one.
pub open spec fn own_entries_of<L>(groups: Seq<GroupEntry<L>>) -> Seq<BindingEntry> {
    let i = choose|i: int| 0 <= i < groups.len() && is_own(#[trigger] groups[i]);
    match groups[i] {
        GroupEntry::Own(es) => es@,
        _ => Seq::empty(),
    }
}

/// `e` names the first two own groups of `groups`.
pub open spec fn first_two_owns<L>(groups: Seq<GroupEntry<L>>, e: MultipleOwnGroups) -> bool {
    &&& e.first < e.second
    &&& (e.second as int) < groups.len()
    &&& is_own(groups[e.first as int])
    &&& is_own(groups[e.second as int])
    &&& forall|k: int| 0 <= k < e.second && k != e.first ==> !is_own(#[trigger] groups[k])
}

proof fn lemma_single_own<L>(groups: Seq<GroupEntry<L>>, i: int, entries: Vec<BindingEntry>)
    requires
        0 <= i < groups.len(),
        groups[i] == GroupEntry::<L>::Own(entries),
        forall|k: int| 0 <= k < groups.len() && k != i ==> !is_own(#[trigger] groups[k]),
    ensures
        at_most_one_own(groups),
        has_own(groups),
        own_entries_of(groups) == entries@,
{
    assert(is_own(groups[i]));
    let j = choose|j: int| 0 <= j < groups.len() && is_own(#[trigger] groups[j]);
    assert(j == i);
}

/// The position of the single own group: `Ok(None)` when there is none,
/// an error naming the first two positions when there is more than one.
fn own_position<L>(groups: &Vec<GroupEntry<L>>) -> (r: Result<Option<usize>, MultipleOwnGroups>)
    ensures
        r is Ok <==> at_most_one_own(groups@),
        match r {
            Ok(None) => !has_own(groups@),
            Ok(Some(f)) => (f as int) < groups@.len() && is_own(groups@[f as int])
                && forall|k: int| 0 <= k < groups@.len() && k != f ==> !is_own(#[trigger] groups@[k]),
            Err(e) => first_two_owns(groups@, e),
        },
{
    let mut found: Option<usize> = None;
    let mut i: usize = 0;
    while i < groups.len()
        invariant
            i <= groups@.len(),
            match found {
                None => forall|k: int| 0 <= k < i ==> !is_own(#[trigger] groups@[k]),
                Some(f) => (f as int) < i && is_own(groups@[f as int])
                    && forall|k: int| 0 <= k < i && k != f ==> !is_own(#[trigger] groups@[k]),
            },
        decreases groups@.len() - i,
    {
        if let GroupEntry::Own(_) = &groups[i] {
            if let Some(f) = found {
                return Err(MultipleOwnGroups { first: f, second: i });
            }
            found = Some(i);
        }
        i = i + 1;
    }
    match found {
        None => {
            assert(!has_own(groups@));
            Ok(None)
        },
        Some(f) => Ok(Some(f)),
    }
}

/// Checks that `groups` has at most one [`GroupEntry::Own`]; otherwise
/// names the first two positions that are own groups.
pub fn check_own_groups<L>(groups: &Vec<GroupEntry<L>>) -> (r: Result<(), MultipleOwnGroups>)
    ensures
        r is Ok <==> at_most_one_own(groups@),
        r matches Err(e) ==> first_two_owns(groups@, e),
{
    match own_position(groups) {
        Ok(_) => Ok(()),
        Err(e) => Err(e),
    }
}

/// The entries of the single [`GroupEntry::Own`] in `groups`, `None` when
/// there is none (a shader with no bind group of its own). A list with more
/// than one own group is refused by [`check_own_groups`] first.
pub fn find_own_entries<'a, L>(groups: &'a Vec<GroupEntry<L>>) -> (r: Option<&'a Vec<BindingEntry>>)
    requires
        at_most_one_own(groups@),
    ensures
        match r {
            None => !has_own(groups@),
            Some(entries) => {
                &&& has_own(groups@)
                &&& entries@ == own_entries_of(groups@)
                &&& exists|i: int| 0 <= i < groups@.len() && groups@[i] == GroupEntry::<L>::Own(*entries)
            },
        },
{
    match own_position(groups) {
        Ok(Some(f)) => match &groups[f] {
            GroupEntry::Own(entries) => {
                proof { lemma_single_own(groups@, f as int, *entries); }
                Some(entries)
            },
            _ => {
                assert(false);
                None
            },
        },
        _ => None,
    }
}

/// Checks that a pipeline's `count` bind groups fit the device's
/// `max_bind_groups`.
pub fn check_bind_group_count(count: usize, max_bind_groups: u32) -> (r: Result<(), TooManyBindGroups>)
    ensures
        r is Ok <==> count <= max_bind_groups,
        r matches Err(e) ==> e == (TooManyBindGroups { needed: count, max_bind_groups }),
{
    if count > max_bind_groups as usize {
        Err(TooManyBindGroups { needed: count, max_bind_groups })
    } else {
        Ok(())
    }
}

/// The layout occupying one slot, given the pipeline's own layout and the
/// pool's registrations (`None` for a name the pool lacks).
pub open spec fn slot_layout<L>(g: GroupEntry<L>, own: L, pool: GlobalLayoutPool<L>) -> Option<L> {
    match g {
        GroupEntry::Own(_) => Some(own),
        GroupEntry::Layout(l) => Some(l),
        GroupEntry::Global(name) => pool.spec_get(name@),
    }
}

/// The ordered pipeline-layout slots for `groups`: position is the
/// `@group(N)` index, `own_layout` fills the [`GroupEntry::Own`] slot and the
/// pool resolves every [`GroupEntry::Global`] name. `None` when some global
/// name is not registered yet (not ready, retry later). `groups` must fit
/// the device's `max_bind_groups` (see [`check_bind_group_count`]).
pub fn assemble_group_layouts<'a, L>(
    groups: &'a Vec<GroupEntry<L>>,
    own_layout: &'a L,
    pool: &'a GlobalLayoutPool<L>,
    max_bind_groups: u32,
) -> (r: Option<Vec<&'a L>>)
    requires
        pool.well_formed(),
        groups@.len() <= max_bind_groups,
    ensures
        match r {
            None => exists|i: int| 0 <= i < groups@.len()
                && slot_layout(#[trigger] groups@[i], *own_layout, *pool) is None,
            Some(slots) => {
                &&& slots@.len() == groups@.len()
                &&& forall|i: int| 0 <= i < groups@.len()
                    ==> slot_layout(#[trigger] groups@[i], *own_layout, *pool) == Some(*slots@[i])
            },
        },
{
    let mut slots: Vec<&'a L> = Vec::new();
    let mut i: usize = 0;
    while i < groups.len()
        invariant
            i <= groups@.len(),
            groups@.len() <= max_bind_groups,
            pool.well_formed(),
            slots@.len() == i,
            forall|k: int| 0 <= k < i ==> slot_layout(#[trigger] groups@[k], *own_layout, *pool) == Some(*slots@[k]),
        decreases groups@.len() - i,
    {
        let layout: &'a L = match &groups[i] {
            GroupEntry::Own(_) => own_layout,
            GroupEntry::Layout(l) => l,
            GroupEntry::Global(name) => match pool.get(name) {
                Some(l) => l,
                None => {
                    assert(slot_layout(groups@[i as int], *own_layout, *pool) is None);
                    return None;
                },
            },
        };
        slots.push(layout);
        i = i + 1;
    }
    Some(slots)
}

} // verus!
