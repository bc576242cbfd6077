//! Batching of skinned entities: entities that share a material and a mesh
//! are drawn as one instanced batch, and each batch keeps a joint-matrix
//! buffer that only ever grows. The matrices themselves are
//! floating-point work done by the caller; this module decides the groups,
//! their instance counts and the buffer capacities.

use vstd::prelude::*;

verus! {

broadcast use vstd::seq_lib::group_seq_properties;

/// A batch's buffer never starts smaller than this many instances.
pub const MIN_BATCH_CAPACITY: u32 = 256;

/// The bytes of one joint matrix (a 4x4 matrix of 32-bit floats).
pub const JOINT_MATRIX_BYTES: u64 = 64;

/// One skinned entity to draw: its material, its mesh and the joint count
/// of its skeleton.
#[derive(Copy, Clone, Debug, PartialEq, Eq, Structural)]
pub struct SkinnedEntity {
    pub material: u64,
    pub mesh: u64,
    pub joint_count: u32,
}

/// The entities, by position in the frame's list, that share one material
/// and mesh, and the joint count of the first of them.
#[derive(Clone, Debug)]
pub struct SkinnedGroup {
    pub material: u64,
    pub mesh: u64,
    pub joint_count: u32,
    pub members: Vec<usize>,
}

/// One entry per unique `(material, mesh)` pair drawn this frame.
#[derive(Copy, Clone, Debug, PartialEq, Eq, Structural)]
pub struct SkinnedBatchUnit {
    pub material: u64,
    pub mesh: u64,
    pub instance_count: u32,
}

/// The batches to draw this frame.
#[derive(Clone, Debug)]
pub struct SkinnedBatchStorage {
    pub batches: Vec<SkinnedBatchUnit>,
}

impl Default for SkinnedBatchStorage {
    fn default() -> (r: Self)
        ensures r.batches@.len() == 0,
    {
        SkinnedBatchStorage { batches: Vec::new() }
    }
}

pub open spec fn key_of(e: SkinnedEntity) -> (u64, u64) {
    (e.material, e.mesh)
}

/// The distinct `(material, mesh)` keys among the first `upto` entities,
/// in the order each first appears.
pub open spec fn group_keys(es: Seq<SkinnedEntity>, upto: int) -> Seq<(u64, u64)>
    decreases upto,
{
    if upto <= 0 {
        Seq::empty()
    } else {
        let prev = group_keys(es, upto - 1);
        if prev.contains(key_of(es[upto - 1])) {
            prev
        } else {
            prev.push(key_of(es[upto - 1]))
        }
    }
}

/// The positions, in increasing order, of the first `upto` entities whose
/// key is `key`.
pub open spec fn members_with_key(es: Seq<SkinnedEntity>, key: (u64, u64), upto: int) -> Seq<usize>
    decreases upto,
{
    if upto <= 0 {
        Seq::empty()
    } else if key_of(es[upto - 1]) == key {
        members_with_key(es, key, upto - 1).push((upto - 1) as usize)
    } else {
        members_with_key(es, key, upto - 1)
    }
}

proof fn lemma_group_keys(es: Seq<SkinnedEntity>, upto: int)
    requires
        0 <= upto <= es.len(),
    ensures
        group_keys(es, upto).no_duplicates(),
        group_keys(es, upto).len() <= upto,
        forall|i: int| 0 <= i < upto ==> group_keys(es, upto).contains(#[trigger] key_of(es[i])),
        forall|g: int| 0 <= g < group_keys(es, upto).len() ==> exists|i: int|
            0 <= i < upto && #[trigger] key_of(es[i]) == #[trigger] group_keys(es, upto)[g],
    decreases upto,
{
    if upto > 0 {
        lemma_group_keys(es, upto - 1);
        let prev = group_keys(es, upto - 1);
        if !prev.contains(key_of(es[upto - 1])) {
            let next = prev.push(key_of(es[upto - 1]));
            assert forall|g: int| 0 <= g < next.len() implies exists|i: int|
                0 <= i < upto && #[trigger] key_of(es[i]) == #[trigger] next[g] by {
                if g == prev.len() {
                    assert(key_of(es[upto - 1]) == next[g]);
                } else {
                    assert(next[g] == prev[g]);
                }
            }
        }
    }
}

proof fn lemma_members_in_range(es: Seq<SkinnedEntity>, key: (u64, u64), upto: int)
    requires
        0 <= upto <= es.len(),
        upto <= usize::MAX,
    ensures
        members_with_key(es, key, upto).len() <= upto,
        forall|m: int| 0 <= m < members_with_key(es, key, upto).len() ==>
            (#[trigger] members_with_key(es, key, upto)[m] as int) < upto
            && key_of(es[members_with_key(es, key, upto)[m] as int]) == key,
    decreases upto,
{
    if upto > 0 {
        lemma_members_in_range(es, key, upto - 1);
    }
}

proof fn lemma_members_contains(es: Seq<SkinnedEntity>, key: (u64, u64), upto: int, i: int)
    requires
        0 <= i < upto <= es.len(),
        upto <= usize::MAX,
    ensures
        members_with_key(es, key, upto).contains(i as usize) <==> key_of(es[i]) == key,
    decreases upto,
{
    lemma_members_in_range(es, key, upto);
    if i < upto - 1 {
        lemma_members_contains(es, key, upto - 1, i);
        lemma_members_in_range(es, key, upto - 1);
        let prev = members_with_key(es, key, upto - 1);
        if key_of(es[upto - 1]) == key {
            let next = prev.push((upto - 1) as usize);
            if prev.contains(i as usize) {
                let m = choose|m: int| 0 <= m < prev.len() && prev[m] == i as usize;
                assert(next[m] == i as usize);
            }
            if next.contains(i as usize) {
                let m = choose|m: int| 0 <= m < next.len() && next[m] == i as usize;
                if m < prev.len() {
                    assert(prev[m] == i as usize);
                }
            }
        }
    } else {
        if key_of(es[i]) == key {
            let next = members_with_key(es, key, upto);
            assert(next[next.len() - 1] == i as usize);
        } else {
            let prev = members_with_key(es, key, upto - 1);
            lemma_members_in_range(es, key, upto - 1);
            if prev.contains(i as usize) {
                let m = choose|m: int| 0 <= m < prev.len() && prev[m] == i as usize;
                assert((prev[m] as int) < upto - 1);
            }
        }
    }
}

proof fn lemma_members_nonempty(es: Seq<SkinnedEntity>, key: (u64, u64), upto: int, i: int)
    requires
        0 <= i < upto <= es.len(),
        upto <= usize::MAX,
        key_of(es[i]) == key,
    ensures
        members_with_key(es, key, upto).len() > 0,
    decreases upto,
{
    if i < upto - 1 {
        lemma_members_nonempty(es, key, upto - 1, i);
    }
}

/// Entity `i` is a member of one of `groups`.
pub open spec fn in_some_group(groups: Seq<SkinnedGroup>, i: int) -> bool {
    exists|g: int| 0 <= g < groups.len() && (#[trigger] groups[g]).members@.contains(i as usize)
}

/// Groups one frame's skinned entities by `(material, mesh)`: one group
/// per distinct pair, in the order each pair first appears; each group
/// lists, in order, every entity with its pair, and takes its joint count
/// from the first of them.
pub fn group_skinned_entities(entities: &Vec<SkinnedEntity>) -> (r: Vec<SkinnedGroup>)
    ensures
        r@.len() == group_keys(entities@, entities@.len() as int).len(),
        forall|g: int| 0 <= g < r@.len() ==> {
            let key = group_keys(entities@, entities@.len() as int)[g];
            &&& (#[trigger] r@[g]).material == key.0
            &&& r@[g].mesh == key.1
            &&& r@[g].members@ == members_with_key(entities@, key, entities@.len() as int)
            &&& r@[g].members@.len() > 0
            &&& r@[g].joint_count == entities@[r@[g].members@[0] as int].joint_count
        },
        forall|g: int, h: int| #![trigger r@[g], r@[h]] 0 <= g < h < r@.len() ==>
            !(r@[g].material == r@[h].material && r@[g].mesh == r@[h].mesh),
        forall|i: int| 0 <= i < entities@.len() ==> #[trigger] in_some_group(r@, i),
{
    let n = entities.len();
    let mut keys: Vec<(u64, u64)> = Vec::new();
    let mut i: usize = 0;
    while i < n
        invariant
            n == entities@.len(),
            i <= n,
            keys@ == group_keys(entities@, i as int),
        decreases n - i,
    {
        let key = (entities[i].material, entities[i].mesh);
        let mut k: usize = 0;
        let mut seen = false;
        while k < keys.len()
            invariant
                k <= keys@.len(),
                seen <==> exists|q: int| 0 <= q < k && keys@[q] == key,
            decreases keys@.len() - k,
        {
            if keys[k].0 == key.0 && keys[k].1 == key.1 {
                seen = true;
            }
            k = k + 1;
        }
        assert(seen <==> keys@.contains(key));
        if !seen {
            keys.push(key);
        }
        i = i + 1;
    }
    proof {
        lemma_group_keys(entities@, n as int);
    }
    let mut groups: Vec<SkinnedGroup> = Vec::new();
    let mut g: usize = 0;
    while g < keys.len()
        invariant
            n == entities@.len(),
            keys@ == group_keys(entities@, n as int),
            forall|j: int| 0 <= j < keys@.len() ==> exists|i: int|
                0 <= i < n && #[trigger] key_of(entities@[i]) == #[trigger] keys@[j],
            g <= keys@.len(),
            groups@.len() == g,
            forall|q: int| 0 <= q < g ==> {
                let key = keys@[q];
                &&& (#[trigger] groups@[q]).material == key.0
                &&& groups@[q].mesh == key.1
                &&& groups@[q].members@ == members_with_key(entities@, key, n as int)
                &&& groups@[q].members@.len() > 0
                &&& groups@[q].joint_count == entities@[groups@[q].members@[0] as int].joint_count
            },
        decreases keys@.len() - g,
    {
        let key = keys[g];
        let mut members: Vec<usize> = Vec::new();
        let mut i: usize = 0;
        while i < n
            invariant
                n == entities@.len(),
                i <= n,
                members@ == members_with_key(entities@, key, i as int),
            decreases n - i,
        {
            if entities[i].material == key.0 && entities[i].mesh == key.1 {
                members.push(i);
            }
            i = i + 1;
        }
        proof {
            let w = choose|i: int| 0 <= i < n && #[trigger] key_of(entities@[i]) == keys@[g as int];
            lemma_members_nonempty(entities@, key, n as int, w);
            lemma_members_in_range(entities@, key, n as int);
        }
        let joint_count = entities[members[0]].joint_count;
        groups.push(SkinnedGroup { material: key.0, mesh: key.1, joint_count, members });
        g = g + 1;
    }
    proof {
        let keys_s = group_keys(entities@, n as int);
        assert forall|g: int, h: int| #![trigger groups@[g], groups@[h]] 0 <= g < h < groups@.len() implies
            !(groups@[g].material == groups@[h].material && groups@[g].mesh == groups@[h].mesh) by {
            assert(keys_s[g] != keys_s[h]);
        }
        assert forall|i: int| 0 <= i < entities@.len() implies #[trigger] in_some_group(groups@, i) by {
            let key = key_of(entities@[i]);
            assert(keys_s.contains(key));
            let g = choose|g: int| 0 <= g < keys_s.len() && keys_s[g] == key;
            lemma_members_contains(entities@, key, n as int, i);
            assert(groups@[g].members@.contains(i as usize));
        }
    }
    groups
}

impl SkinnedBatchStorage {
    /// The batches drawn for this frame's groups: one per group, in order,
    /// with as many instances as the group has members.
    pub fn from_groups(groups: &Vec<SkinnedGroup>) -> (r: Self)
        requires
            forall|g: int| 0 <= g < groups@.len() ==> (#[trigger] groups@[g]).members@.len() <= u32::MAX,
        ensures
            r.batches@.len() == groups@.len(),
            forall|g: int| 0 <= g < groups@.len() ==> #[trigger] r.batches@[g] == (SkinnedBatchUnit {
                material: groups@[g].material,
                mesh: groups@[g].mesh,
                instance_count: groups@[g].members@.len() as u32,
            }),
    {
        let mut batches: Vec<SkinnedBatchUnit> = Vec::new();
        let mut g: usize = 0;
        while g < groups.len()
            invariant
                g <= groups@.len(),
                batches@.len() == g,
                forall|q: int| 0 <= q < groups@.len() ==> (#[trigger] groups@[q]).members@.len() <= u32::MAX,
                forall|q: int| 0 <= q < g ==> #[trigger] batches@[q] == (SkinnedBatchUnit {
                    material: groups@[q].material,
                    mesh: groups@[q].mesh,
                    instance_count: groups@[q].members@.len() as u32,
                }),
            decreases groups@.len() - g,
        {
            let group = &groups[g];
            batches.push(SkinnedBatchUnit {
                material: group.material,
                mesh: group.mesh,
                instance_count: group.members.len() as u32,
            });
            g = g + 1;
        }
        SkinnedBatchStorage { batches }
    }
}

/// The joint-matrix buffer kept for one `(material, mesh)` batch.
#[derive(Copy, Clone, Debug, PartialEq, Eq, Structural)]
pub struct BatchSlot {
    pub material: u64,
    pub mesh: u64,
    pub joint_count: u32,
    /// How many instances the buffer holds.
    pub capacity: u32,
}

/// What preparing a batch asks of the caller.
#[derive(Copy, Clone, Debug, PartialEq, Eq, Structural)]
pub enum PrepareAction {
    /// The batch's buffer already holds enough instances.
    Keep,
    /// A new batch: make its buffers for `capacity` instances.
    Create { capacity: u32 },
    /// The batch outgrew its buffer: remake it for `capacity` instances.
    Grow { capacity: u32 },
}

/// The capacity of a new batch that must hold `needed` instances.
pub open spec fn initial_capacity(needed: u32) -> u32 {
    if needed > MIN_BATCH_CAPACITY { needed } else { MIN_BATCH_CAPACITY }
}

/// The capacity a batch of `capacity` grows to when it must hold `needed`
/// (more) instances: double, or `needed` when that is more.
pub open spec fn grown_capacity(capacity: u32, needed: u32) -> int {
    if needed > 2 * capacity { needed as int } else { 2 * capacity }
}

/// The size in bytes of a joint-matrix buffer for `capacity` instances of a
/// skeleton with `joint_count` joints.
pub fn joint_matrix_buffer_size(capacity: u32, joint_count: u32) -> (r: u64)
    requires
        capacity * joint_count * JOINT_MATRIX_BYTES <= u64::MAX,
    ensures
        r == capacity * joint_count * JOINT_MATRIX_BYTES,
{
    (capacity as u64) * (joint_count as u64) * JOINT_MATRIX_BYTES
}

/// Slot `s` is the one for `(material, mesh)`.
pub open spec fn slot_is(s: BatchSlot, material: u64, mesh: u64) -> bool {
    s.material == material && s.mesh == mesh
}

/// No two of `slots` share a `(material, mesh)` pair.
pub open spec fn keys_unique(slots: Seq<BatchSlot>) -> bool {
    forall|i: int, j: int| #![trigger slots[i], slots[j]]
        0 <= i < slots.len() && 0 <= j < slots.len() && i != j ==> !slot_is(slots[i], slots[j].material, slots[j].mesh)
}

/// The slot of `slots` kept for `(material, mesh)`, if any.
pub open spec fn find_slot(slots: Seq<BatchSlot>, material: u64, mesh: u64) -> Option<BatchSlot> {
    if exists|i: int| 0 <= i < slots.len() && #[trigger] slot_is(slots[i], material, mesh) {
        Some(slots[choose|i: int| 0 <= i < slots.len() && #[trigger] slot_is(slots[i], material, mesh)])
    } else {
        None
    }
}

proof fn lemma_find_slot_at(slots: Seq<BatchSlot>, i: int, material: u64, mesh: u64)
    requires
        keys_unique(slots),
        0 <= i < slots.len(),
        slot_is(slots[i], material, mesh),
    ensures
        find_slot(slots, material, mesh) == Some(slots[i]),
{
    let j = choose|j: int| 0 <= j < slots.len() && #[trigger] slot_is(slots[j], material, mesh);
    if j != i {
        assert(!slot_is(slots[j], slots[i].material, slots[i].mesh));
    }
}

proof fn lemma_find_slot_absent(slots: Seq<BatchSlot>, material: u64, mesh: u64)
    requires
        forall|i: int| 0 <= i < slots.len() ==> !(#[trigger] slot_is(slots[i], material, mesh)),
    ensures
        find_slot(slots, material, mesh) is None,
{
}

/// The batches kept across frames, one per `(material, mesh)` pair ever
/// drawn.
pub struct SkinnedBatchPlanner {
    slots: Vec<BatchSlot>,
}

impl SkinnedBatchPlanner {
    pub closed spec fn spec_slots(&self) -> Seq<BatchSlot> {
        self.slots@
    }

    /// The slot kept for `(material, mesh)`, if any.
    pub open spec fn spec_slot(&self, material: u64, mesh: u64) -> Option<BatchSlot> {
        find_slot(self.spec_slots(), material, mesh)
    }

    /// No two slots share a `(material, mesh)` pair.
    pub open spec fn well_formed(&self) -> bool {
        keys_unique(self.spec_slots())
    }

    /// No batch kept yet.
    pub fn new() -> (r: Self)
        ensures
            r.well_formed(),
            forall|material: u64, mesh: u64| #[trigger] r.spec_slot(material, mesh) is None,
    {
        SkinnedBatchPlanner { slots: Vec::new() }
    }

    fn position(&self, material: u64, mesh: u64) -> (r: usize)
        ensures
            r <= self.slots@.len(),
            r < self.slots@.len() ==> slot_is(self.slots@[r as int], material, mesh),
            r == self.slots@.len() ==> forall|k: int| 0 <= k < self.slots@.len() ==> !(#[trigger] slot_is(self.slots@[k], material, mesh)),
    {
        let mut i: usize = 0;
        while i < self.slots.len()
            invariant
                i <= self.slots@.len(),
                forall|k: int| 0 <= k < i ==> !(#[trigger] slot_is(self.slots@[k], material, mesh)),
            decreases self.slots@.len() - i,
        {
            if self.slots[i].material == material && self.slots[i].mesh == mesh {
                return i;
            }
            i = i + 1;
        }
        i
    }

    /// The batch kept for `(material, mesh)`, if any.
    pub fn slot(&self, material: u64, mesh: u64) -> (r: Option<BatchSlot>)
        requires
            self.well_formed(),
        ensures
            r == self.spec_slot(material, mesh),
    {
        let i = self.position(material, mesh);
        if i < self.slots.len() {
            proof { lemma_find_slot_at(self.slots@, i as int, material, mesh); }
            Some(self.slots[i])
        } else {
            proof { lemma_find_slot_absent(self.slots@, material, mesh); }
            None
        }
    }

    /// Makes sure the batch for `(material, mesh)` can hold `needed`
    /// instances: a new batch starts with room for at least
    /// [`MIN_BATCH_CAPACITY`] and the given joint count; a batch that is too
    /// small grows to twice its room, or to `needed` when that is more, and
    /// keeps its joint count; any other batch is kept as it is. Either way
    /// the batch can then hold `needed` instances and has not shrunk.
    pub fn prepare(&mut self, material: u64, mesh: u64, joint_count: u32, needed: u32) -> (r: PrepareAction)
        requires
            old(self).well_formed(),
            match old(self).spec_slot(material, mesh) {
                Some(s) => needed > s.capacity ==> 2 * s.capacity <= u32::MAX,
                None => true,
            },
        ensures
            final(self).well_formed(),
            match old(self).spec_slot(material, mesh) {
                None => {
                    &&& r == PrepareAction::Create { capacity: initial_capacity(needed) }
                    &&& final(self).spec_slot(material, mesh) == Some(BatchSlot {
                        material, mesh, joint_count, capacity: initial_capacity(needed),
                    })
                },
                Some(s) => if needed > s.capacity {
                    &&& r == PrepareAction::Grow { capacity: grown_capacity(s.capacity, needed) as u32 }
                    &&& final(self).spec_slot(material, mesh) == Some(BatchSlot {
                        capacity: grown_capacity(s.capacity, needed) as u32, ..s
                    })
                } else {
                    &&& r == PrepareAction::Keep
                    &&& final(self).spec_slot(material, mesh) == Some(s)
                },
            },
            forall|m: u64, h: u64| !(m == material && h == mesh) ==>
                #[trigger] final(self).spec_slot(m, h) == old(self).spec_slot(m, h),
            final(self).spec_slot(material, mesh) matches Some(a) && needed <= a.capacity,
            match (old(self).spec_slot(material, mesh), final(self).spec_slot(material, mesh)) {
                (Some(s), Some(a)) => s.capacity <= a.capacity && a.joint_count == s.joint_count,
                _ => true,
            },
    {
        let ghost old_slots = self.slots@;
        let i = self.position(material, mesh);
        if i == self.slots.len() {
            proof { lemma_find_slot_absent(old_slots, material, mesh); }
            let capacity = if needed > MIN_BATCH_CAPACITY { needed } else { MIN_BATCH_CAPACITY };
            let slot = BatchSlot { material, mesh, joint_count, capacity };
            self.slots.push(slot);
            proof {
                let slots = self.slots@;
                assert(keys_unique(slots)) by {
                    assert forall|a: int, b: int| #![trigger slots[a], slots[b]]
                        0 <= a < slots.len() && 0 <= b < slots.len() && a != b implies !slot_is(slots[a], slots[b].material, slots[b].mesh) by {
                        if a < old_slots.len() && b < old_slots.len() {
                            assert(old_slots[a] == slots[a] && old_slots[b] == slots[b]);
                        } else if a < old_slots.len() {
                            assert(old_slots[a] == slots[a]);
                            assert(!slot_is(old_slots[a], material, mesh));
                        } else {
                            assert(old_slots[b] == slots[b]);
                            assert(!slot_is(old_slots[b], material, mesh));
                        }
                    }
                }
                lemma_find_slot_at(slots, old_slots.len() as int, material, mesh);
                assert forall|m: u64, h: u64| !(m == material && h == mesh) implies
                    #[trigger] self.spec_slot(m, h) == old(self).spec_slot(m, h) by {
                    if exists|j: int| 0 <= j < old_slots.len() && #[trigger] slot_is(old_slots[j], m, h) {
                        let j = choose|j: int| 0 <= j < old_slots.len() && #[trigger] slot_is(old_slots[j], m, h);
                        lemma_find_slot_at(old_slots, j, m, h);
                        assert(slots[j] == old_slots[j]);
                        lemma_find_slot_at(slots, j, m, h);
                    } else {
                        assert forall|j: int| 0 <= j < slots.len() implies !(#[trigger] slot_is(slots[j], m, h)) by {
                            if j < old_slots.len() {
                                assert(slots[j] == old_slots[j]);
                            }
                        }
                        lemma_find_slot_absent(slots, m, h);
                    }
                }
            }
            PrepareAction::Create { capacity }
        } else {
            let slot = self.slots[i];
            proof { lemma_find_slot_at(old_slots, i as int, material, mesh); }
            if needed > slot.capacity {
                let doubled = slot.capacity * 2;
                let capacity = if needed > doubled { needed } else { doubled };
                let grown = BatchSlot { capacity, ..slot };
                self.slots.set(i, grown);
                proof {
                    let slots = self.slots@;
                    assert(keys_unique(slots)) by {
                        assert forall|a: int, b: int| #![trigger slots[a], slots[b]]
                            0 <= a < slots.len() && 0 <= b < slots.len() && a != b implies !slot_is(slots[a], slots[b].material, slots[b].mesh) by {
                            assert(old_slots[a].material == slots[a].material && old_slots[a].mesh == slots[a].mesh);
                            assert(old_slots[b].material == slots[b].material && old_slots[b].mesh == slots[b].mesh);
                        }
                    }
                    lemma_find_slot_at(slots, i as int, material, mesh);
                    assert forall|m: u64, h: u64| !(m == material && h == mesh) implies
                        #[trigger] self.spec_slot(m, h) == old(self).spec_slot(m, h) by {
                        if exists|j: int| 0 <= j < old_slots.len() && #[trigger] slot_is(old_slots[j], m, h) {
                            let j = choose|j: int| 0 <= j < old_slots.len() && #[trigger] slot_is(old_slots[j], m, h);
                            lemma_find_slot_at(old_slots, j, m, h);
                            assert(j != i as int);
                            assert(slots[j] == old_slots[j]);
                            lemma_find_slot_at(slots, j, m, h);
                        } else {
                            assert forall|j: int| 0 <= j < slots.len() implies !(#[trigger] slot_is(slots[j], m, h)) by {
                                if j != i as int {
                                    assert(slots[j] == old_slots[j]);
                                }
                            }
                            lemma_find_slot_absent(slots, m, h);
                        }
                    }
                }
                PrepareAction::Grow { capacity }
            } else {
                PrepareAction::Keep
            }
        }
    }
}

} // verus!
