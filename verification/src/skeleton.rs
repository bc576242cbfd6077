//! The joint hierarchy of a skeleton: which joint is whose parent, and an
//! order in which every parent comes before its children, so that world
//! matrices can be accumulated in a single pass. The matrices themselves are
//! floating-point work done by the caller; this module owns the topology.

use vstd::prelude::*;
use crate::text::str_eq;

verus! {

broadcast use vstd::seq_lib::group_seq_properties;

/// `order` lists every joint exactly once (it is a permutation of
/// `0..parents.len()`), and each joint's parent appears before the joint.
pub open spec fn is_parent_first_order(parents: Seq<Option<usize>>, order: Seq<usize>) -> bool {
    &&& order.len() == parents.len()
    &&& order.no_duplicates()
    &&& forall|k: int| 0 <= k < order.len() ==> (order[k] as int) < parents.len()
    &&& forall|k: int| 0 <= k < order.len() ==> parent_listed_before(parents, order, k)
}

/// The parent of the joint at position `k` of `order` (if it has one) sits
/// somewhere in `order[0..k]`.
pub open spec fn parent_listed_before(parents: Seq<Option<usize>>, order: Seq<usize>, k: int) -> bool {
    match parents[order[k] as int] {
        None => true,
        Some(q) => order.subrange(0, k).contains(q),
    }
}

/// Some parent-first order of the joints exists, i.e. the parent links have
/// no cycle.
pub open spec fn has_parent_first_order(parents: Seq<Option<usize>>) -> bool {
    exists|order: Seq<usize>| is_parent_first_order(parents, order)
}

/// Joint `x` has no parent.
pub open spec fn is_root(parents: Seq<Option<usize>>, x: usize) -> bool {
    parents[x as int] is None
}

/// Joint `x` has a parent, and that parent is listed in `visited`.
pub open spec fn parent_in(parents: Seq<Option<usize>>, visited: Seq<usize>, x: usize) -> bool {
    match parents[x as int] {
        Some(q) => visited.contains(q),
        None => false,
    }
}

/// Joint `x` is a root or its parent is listed in `visited`.
pub open spec fn root_or_parent_in(parents: Seq<Option<usize>>, visited: Seq<usize>, x: usize) -> bool {
    is_root(parents, x) || parent_in(parents, visited, x)
}

/// Joint `i` names a parent index outside the skeleton.
pub open spec fn parent_out_of_range(parents: Seq<Option<usize>>, i: int) -> bool {
    match parents[i] {
        Some(q) => q >= parents.len(),
        None => false,
    }
}

/// Every parent index names a joint of the skeleton.
pub open spec fn parents_in_range(parents: Seq<Option<usize>>) -> bool {
    forall|i: int| 0 <= i < parents.len() ==> !parent_out_of_range(parents, i)
}

/// Why a set of parent links does not form a joint hierarchy.
#[derive(Copy, Clone, Debug, PartialEq, Eq, Structural)]
pub enum HierarchyError {
    /// `joint` (the first such joint) names `parent`, which is not a joint index.
    ParentOutOfRange { joint: usize, parent: usize },
    /// The parent links contain a cycle: some joints never reach a root.
    Cycle,
}

/// A validated joint hierarchy: parent links, joint names and a parent-first
/// traversal order.
pub struct JointHierarchy {
    parents: Vec<Option<usize>>,
    names: Vec<String>,
    order: Vec<usize>,
}

impl JointHierarchy {
    pub closed spec fn spec_parents(&self) -> Seq<Option<usize>> {
        self.parents@
    }

    pub closed spec fn spec_names(&self) -> Seq<Seq<char>> {
        self.names@.map_values(|n: String| n@)
    }

    pub closed spec fn spec_order(&self) -> Seq<usize> {
        self.order@
    }

    /// Every stored hierarchy has one name per joint, in-range parents and a
    /// parent-first order.
    pub closed spec fn well_formed(&self) -> bool {
        &&& self.names@.len() == self.parents@.len()
        &&& parents_in_range(self.parents@)
        &&& is_parent_first_order(self.parents@, self.order@)
    }

    /// The hierarchy of `parents` (one entry per joint, `None` for a root)
    /// and `names`, with a parent-first order. Every parent index must name
    /// a joint and the links must have no cycle; [`parent_first_order`]
    /// checks both and reports the first problem.
    pub fn new(parents: Vec<Option<usize>>, names: Vec<String>) -> (r: JointHierarchy)
        requires
            names@.len() == parents@.len(),
            parents_in_range(parents@),
            has_parent_first_order(parents@),
        ensures
            r.well_formed(),
            r.spec_parents() == parents@,
            r.spec_names() == names@.map_values(|n: String| n@),
    {
        match parent_first_order(&parents) {
            Ok(order) => JointHierarchy { parents, names, order },
            Err(_) => {
                assert(false);
                JointHierarchy { parents, names, order: Vec::new() }
            },
        }
    }

    pub fn joint_count(&self) -> (r: usize)
        ensures r == self.spec_parents().len(),
    {
        self.parents.len()
    }

    /// The parent of joint `index`, if it has one.
    pub fn parent(&self, index: usize) -> (r: Option<usize>)
        requires (index as int) < self.spec_parents().len(),
        ensures r == self.spec_parents()[index as int],
    {
        self.parents[index]
    }

    /// The parent-first traversal order.
    pub fn order(&self) -> (r: &Vec<usize>)
        ensures r@ == self.spec_order(),
    {
        &self.order
    }

    /// The index of the first joint named `name`, if any.
    pub fn joint_index_by_name(&self, name: &str) -> (r: Option<usize>)
        requires self.well_formed(),
        ensures
            match r {
                Some(i) => {
                    &&& (i as int) < self.spec_names().len()
                    &&& self.spec_names()[i as int] == name@
                    &&& forall|j: int| 0 <= j < i ==> self.spec_names()[j] != name@
                },
                None => forall|j: int| 0 <= j < self.spec_names().len() ==> self.spec_names()[j] != name@,
            },
    {
        let mut i: usize = 0;
        while i < self.names.len()
            invariant
                i <= self.names@.len(),
                forall|j: int| 0 <= j < i ==> self.names@[j]@ != name@,
            decreases self.names@.len() - i,
        {
            if str_eq(self.names[i].as_str(), name) {
                return Some(i);
            }
            i = i + 1;
        }
        None
    }
}

/// The children lists of the joints and the list of roots, given in-range
/// parent links: `children[q]` holds, in increasing order, the joints whose
/// parent is `q`.
fn children_and_roots(parents: &Vec<Option<usize>>) -> (r: (Vec<Vec<usize>>, Vec<usize>))
    requires
        parents_in_range(parents@),
    ensures
        r.0@.len() == parents@.len(),
        forall|q: int| 0 <= q < parents@.len() ==> (#[trigger] r.0@[q]@).no_duplicates(),
        forall|q: int, i: usize| 0 <= q < parents@.len() ==>
            ((#[trigger] r.0@[q]@.contains(i)) <==> ((i as int) < parents@.len() && parents@[i as int] == Some(q as usize))),
        r.1@.no_duplicates(),
        forall|i: usize| r.1@.contains(i) <==> ((i as int) < parents@.len() && parents@[i as int] is None),
{
    let n = parents.len();
    let mut children: Vec<Vec<usize>> = Vec::new();
    let mut k: usize = 0;
    while k < n
        invariant
            k <= n,
            n == parents@.len(),
            children@.len() == k,
            forall|q: int| 0 <= q < k ==> (#[trigger] children@[q]@).len() == 0,
        decreases n - k,
    {
        children.push(Vec::new());
        k = k + 1;
    }
    let mut roots: Vec<usize> = Vec::new();
    let mut i: usize = 0;
    while i < n
        invariant
            i <= n,
            n == parents@.len(),
            parents_in_range(parents@),
            children@.len() == n,
            forall|q: int| 0 <= q < n ==> (#[trigger] children@[q]@).no_duplicates(),
            forall|q: int, x: usize| 0 <= q < n ==>
                ((#[trigger] children@[q]@.contains(x)) <==> ((x as int) < i && parents@[x as int] == Some(q as usize))),
            forall|q: int, k: int| 0 <= q < n && 0 <= k < children@[q]@.len() ==> (#[trigger] children@[q]@[k]) < i,
            roots@.no_duplicates(),
            forall|x: usize| roots@.contains(x) <==> ((x as int) < i && parents@[x as int] is None),
            forall|k: int| 0 <= k < roots@.len() ==> roots@[k] < i,
        decreases n - i,
    {
        match parents[i] {
            Some(q) => {
                assert(!parent_out_of_range(parents@, i as int));
                let ghost old_children = children@;
                let mut list = children[q].clone();
                assert(list@ =~= old_children[q as int]@);
                list.push(i);
                children.set(q, list);
                assert forall|p: int, x: usize| 0 <= p < n implies
                    ((#[trigger] children@[p]@.contains(x)) <==> ((x as int) < i + 1 && parents@[x as int] == Some(p as usize))) by {
                    if p == q as int {
                        assert(children@[p]@ == old_children[p]@.push(i));
                        if x == i {
                            assert(children@[p]@[old_children[p]@.len() as int] == i);
                        } else if children@[p]@.contains(x) {
                            let k = choose|k: int| 0 <= k < children@[p]@.len() && children@[p]@[k] == x;
                            assert(old_children[p]@[k] == x);
                        } else if (x as int) < i && parents@[x as int] == Some(p as usize) {
                            let k = choose|k: int| 0 <= k < old_children[p]@.len() && old_children[p]@[k] == x;
                            assert(children@[p]@[k] == x);
                        }
                    } else {
                        assert(children@[p] == old_children[p]);
                    }
                }
                assert forall|p: int| 0 <= p < n implies (#[trigger] children@[p]@).no_duplicates() by {
                    if p == q as int {
                        assert(children@[p]@ == old_children[p]@.push(i));
                    } else {
                        assert(children@[p] == old_children[p]);
                    }
                }
                assert forall|p: int, k: int| 0 <= p < n && 0 <= k < children@[p]@.len() implies
                    (#[trigger] children@[p]@[k]) < i + 1 by {
                    if p == q as int {
                        assert(children@[p]@ == old_children[p]@.push(i));
                        if k < old_children[p]@.len() {
                            assert(children@[p]@[k] == old_children[p]@[k]);
                        }
                    } else {
                        assert(children@[p] == old_children[p]);
                    }
                }
            },
            None => {
                let ghost old_roots = roots@;
                roots.push(i);
                assert forall|x: usize| roots@.contains(x) <==> ((x as int) < i + 1 && parents@[x as int] is None) by {
                    if x == i {
                        assert(roots@[old_roots.len() as int] == i);
                    } else if roots@.contains(x) {
                        let k = choose|k: int| 0 <= k < roots@.len() && roots@[k] == x;
                        assert(old_roots[k] == x);
                    } else if (x as int) < i && parents@[x as int] is None {
                        let k = choose|k: int| 0 <= k < old_roots.len() && old_roots[k] == x;
                        assert(roots@[k] == x);
                    }
                }
            },
        }
        i = i + 1;
    }
    (children, roots)
}

/// Computes a parent-first order of the joints described by `parents`,
/// walking down from every root and visiting each joint's children after
/// the joint itself.
pub fn parent_first_order(parents: &Vec<Option<usize>>) -> (r: Result<Vec<usize>, HierarchyError>)
    ensures
        match r {
            Ok(order) => parents_in_range(parents@) && is_parent_first_order(parents@, order@),
            Err(HierarchyError::ParentOutOfRange { joint, parent }) => {
                &&& (joint as int) < parents@.len()
                &&& parents@[joint as int] == Some(parent)
                &&& parent_out_of_range(parents@, joint as int)
                &&& forall|i: int| 0 <= i < joint ==> !parent_out_of_range(parents@, i)
            },
            Err(HierarchyError::Cycle) => parents_in_range(parents@) && !has_parent_first_order(parents@),
        },
        r is Ok <==> (parents_in_range(parents@) && has_parent_first_order(parents@)),
{
    let n = parents.len();
    let mut i: usize = 0;
    while i < n
        invariant
            i <= n,
            n == parents@.len(),
            forall|j: int| 0 <= j < i ==> !parent_out_of_range(parents@, j),
        decreases n - i,
    {
        if let Some(p) = parents[i] {
            if p >= n {
                assert(parent_out_of_range(parents@, i as int));
                return Err(HierarchyError::ParentOutOfRange { joint: i, parent: p });
            }
        }
        i = i + 1;
    }
    assert(parents_in_range(parents@));

    let (children, roots) = children_and_roots(parents);
    let ghost ps = parents@;
    let mut order: Vec<usize> = Vec::new();
    let mut queue: Vec<usize> = roots;
    assert forall|k: int| 0 <= k < queue@.len() implies (queue@[k] as int) < n
        && root_or_parent_in(ps, order@, #[trigger] queue@[k]) by {
        assert(queue@.contains(queue@[k]));
    }
    assert(order@ + queue@ =~= queue@);
    while queue.len() > 0
        invariant
            n == ps.len(),
            ps == parents@,
            parents_in_range(ps),
            children@.len() == n,
            forall|q: int| 0 <= q < n ==> (#[trigger] children@[q]@).no_duplicates(),
            forall|q: int, x: usize| 0 <= q < n ==>
                ((#[trigger] children@[q]@.contains(x)) <==> ((x as int) < n && ps[x as int] == Some(q as usize))),
            (order@ + queue@).no_duplicates(),
            forall|k: int| 0 <= k < order@.len() ==> (order@[k] as int) < n,
            forall|k: int| 0 <= k < queue@.len() ==> (queue@[k] as int) < n,
            forall|k: int| 0 <= k < order@.len() ==> parent_listed_before(ps, order@, k),
            forall|k: int| 0 <= k < queue@.len() ==> root_or_parent_in(ps, order@, #[trigger] queue@[k]),
            forall|x: usize| (x as int) < n && #[trigger] is_root(ps, x) ==> (order@ + queue@).contains(x),
            forall|x: usize| (x as int) < n && #[trigger] parent_in(ps, order@, x) ==> (order@ + queue@).contains(x),
        decreases n - order@.len(),
    {
        let ghost old_order = order@;
        let ghost old_queue = queue@;
        proof { lemma_dup_free_in_range(old_order + old_queue, n as nat); }
        let j = queue.pop().unwrap();
        assert(old_queue =~= queue@.push(j));
        order.push(j);
        assert(order@ =~= old_order.push(j));
        assert(queue@ =~= old_queue.drop_last());
        proof { lemma_visit_last_waiting(old_order, old_queue); }
        assert(order@ + queue@ =~= old_order.push(j) + old_queue.drop_last());
        proof {
            // The newly visited joint keeps the parent-first property.
            let k = old_order.len() as int;
            assert(order@[k] == j);
            assert(order@.subrange(0, k) =~= old_order);
            match ps[j as int] {
                None => {},
                Some(q) => {
                    assert(old_queue[old_queue.len() - 1] == j);
                },
            }
            assert forall|m: int| 0 <= m < order@.len() implies parent_listed_before(ps, order@, m) by {
                if m < k {
                    assert(order@.subrange(0, m) =~= old_order.subrange(0, m));
                    assert(parent_listed_before(ps, old_order, m));
                }
            }
        }
        proof {
            assert(old_queue[old_queue.len() - 1] == j);
            assert((j as int) < n);
            assert forall|x: usize| (x as int) < n && #[trigger] is_root(ps, x) implies (order@ + queue@).contains(x) by {
                assert((old_order + old_queue).contains(x));
            }
            assert forall|x: usize| (x as int) < n && ps[x as int] != Some(j) && #[trigger] parent_in(ps, order@, x)
                implies (order@ + queue@).contains(x) by {
                let q = ps[x as int].unwrap();
                let w = choose|w: int| 0 <= w < order@.len() && order@[w] == q;
                assert(w < old_order.len());
                assert(old_order[w] == q);
                assert(parent_in(ps, old_order, x));
                assert((old_order + old_queue).contains(x));
            }
            assert forall|k: int| 0 <= k < queue@.len() implies root_or_parent_in(ps, order@, #[trigger] queue@[k]) by {
                assert(queue@[k] == old_queue[k]);
                assert(root_or_parent_in(ps, old_order, old_queue[k]));
                if parent_in(ps, old_order, old_queue[k]) {
                    let q = ps[queue@[k] as int].unwrap();
                    let w = choose|w: int| 0 <= w < old_order.len() && old_order[w] == q;
                    assert(order@[w] == q);
                }
            }
            assert forall|m: int| 0 <= m < children@[j as int]@.len() implies
                !(order@ + queue@).contains(#[trigger] children@[j as int]@[m]) by {
                let x = children@[j as int]@[m];
                assert(children@[j as int]@.contains(x));
                if (order@ + queue@).contains(x) {
                    let w = choose|w: int| 0 <= w < (order@ + queue@).len() && (order@ + queue@)[w] == x;
                    if w < order@.len() {
                        if w == old_order.len() {
                            // x == j would make j its own parent, yet j's parent was visited before j.
                            assert(x == j);
                            assert(root_or_parent_in(ps, old_order, j));
                            assert(old_order.contains(j));
                            let w2 = choose|w2: int| 0 <= w2 < old_order.len() && old_order[w2] == j;
                            assert((old_order + old_queue)[w2] == (old_order + old_queue)[old_order.len() + old_queue.len() - 1]);
                        } else {
                            // x visited earlier: its parent j would have been visited before it.
                            assert(parent_listed_before(ps, old_order, w));
                            assert(old_order.subrange(0, w).contains(j));
                            let w2 = choose|w2: int| 0 <= w2 < w && old_order.subrange(0, w)[w2] == j;
                            assert(old_order[w2] == j);
                            assert((old_order + old_queue)[w2] == (old_order + old_queue)[old_order.len() + old_queue.len() - 1]);
                        }
                    } else {
                        // x waiting in the queue: its parent j would already have been visited.
                        let kq = w - order@.len();
                        assert(queue@[kq] == x);
                        assert(old_queue[kq] == x);
                        assert(root_or_parent_in(ps, old_order, x));
                        assert(old_order.contains(j));
                        let w2 = choose|w2: int| 0 <= w2 < old_order.len() && old_order[w2] == j;
                        assert((old_order + old_queue)[w2] == (old_order + old_queue)[old_order.len() + old_queue.len() - 1]);
                    }
                }
            }
        }
        let kids = &children[j];
        let mut c: usize = 0;
        while c < kids.len()
            invariant
                n == ps.len(),
                ps == parents@,
                parents_in_range(ps),
                (j as int) < n,
                kids@ == children@[j as int]@,
                kids@.no_duplicates(),
                forall|x: usize| #[trigger] kids@.contains(x) <==> ((x as int) < n && ps[x as int] == Some(j)),
                c <= kids@.len(),
                order@.len() > 0,
                order@[order@.len() - 1] == j,
                (order@ + queue@).no_duplicates(),
                forall|k: int| 0 <= k < order@.len() ==> (order@[k] as int) < n,
                forall|k: int| 0 <= k < queue@.len() ==> (queue@[k] as int) < n,
                forall|k: int| 0 <= k < order@.len() ==> parent_listed_before(ps, order@, k),
                forall|k: int| 0 <= k < queue@.len() ==> root_or_parent_in(ps, order@, #[trigger] queue@[k]),
                forall|x: usize| (x as int) < n && #[trigger] is_root(ps, x) ==> (order@ + queue@).contains(x),
                forall|x: usize| (x as int) < n && ps[x as int] != Some(j) && #[trigger] parent_in(ps, order@, x)
                    ==> (order@ + queue@).contains(x),
                forall|m: int| 0 <= m < c ==> (order@ + queue@).contains(#[trigger] kids@[m]),
                forall|m: int| c <= m < kids@.len() ==> !(order@ + queue@).contains(#[trigger] kids@[m]),
            decreases kids@.len() - c,
        {
            let x = kids[c];
            let ghost pre = order@ + queue@;
            let ghost pre_queue = queue@;
            assert(kids@.contains(x));
            assert((x as int) < n);
            queue.push(x);
            assert(queue@ =~= pre_queue.push(x));
            assert forall|k: int| 0 <= k < queue@.len() implies (queue@[k] as int) < n by {
                if k < pre_queue.len() {
                    assert(queue@[k] == pre_queue[k]);
                }
            }
            assert((order@ + queue@) =~= pre.push(x));
            assert forall|m: int| 0 <= m < c + 1 implies (order@ + queue@).contains(#[trigger] kids@[m]) by {
                if m < c {
                    let w = choose|w: int| 0 <= w < pre.len() && pre[w] == kids@[m];
                    assert((order@ + queue@)[w] == kids@[m]);
                } else {
                    assert((order@ + queue@)[pre.len() as int] == x);
                }
            }
            assert forall|m: int| c + 1 <= m < kids@.len() implies !(order@ + queue@).contains(#[trigger] kids@[m]) by {
                assert(kids@[m] != x);
                if (order@ + queue@).contains(kids@[m]) {
                    let w = choose|w: int| 0 <= w < (order@ + queue@).len() && (order@ + queue@)[w] == kids@[m];
                    assert(pre[w] == kids@[m]);
                }
            }
            assert forall|y: usize| (y as int) < n && #[trigger] is_root(ps, y) implies (order@ + queue@).contains(y) by {
                let w = choose|w: int| 0 <= w < pre.len() && pre[w] == y;
                assert((order@ + queue@)[w] == y);
            }
            assert forall|y: usize| (y as int) < n && ps[y as int] != Some(j) && #[trigger] parent_in(ps, order@, y)
                implies (order@ + queue@).contains(y) by {
                let w = choose|w: int| 0 <= w < pre.len() && pre[w] == y;
                assert((order@ + queue@)[w] == y);
            }
            assert forall|a: int, b: int| 0 <= a < b < (order@ + queue@).len()
                implies (order@ + queue@)[a] != (order@ + queue@)[b] by {
                if b == pre.len() {
                    assert(pre.contains(pre[a]));
                }
            }
            c = c + 1;
        }
        proof {
            assert forall|x: usize| (x as int) < n && #[trigger] parent_in(ps, order@, x)
                implies (order@ + queue@).contains(x) by {
                if ps[x as int] == Some(j) {
                    assert(kids@.contains(x));
                    let m = choose|m: int| 0 <= m < kids@.len() && kids@[m] == x;
                }
            }
        }
    }
    assert(order@ + queue@ =~= order@);
    proof { lemma_dup_free_in_range(order@, n as nat); }
    if order.len() == n {
        proof {
            lemma_dup_free_in_range(order@, n as nat);
            assert(is_parent_first_order(ps, order@));
        }
        Ok(order)
    } else {
        proof {
            // Some joint was never visited; every unvisited joint has an
            // unvisited parent, so no parent-first order can exist.
            assert(exists|x: usize| (x as int) < n && !order@.contains(x)) by {
                if forall|x: usize| (x as int) < n ==> order@.contains(x) {
                    lemma_covering_seq_is_long(order@, n);
                }
            }
            let x0 = choose|x: usize| (x as int) < n && !order@.contains(x);
            assert forall|y: usize| (y as int) < n && !order@.contains(y) implies
                (match ps[y as int] { None => false, Some(q) => !order@.contains(q) }) by {
                assert(!(order@ + queue@).contains(y));
                assert(!is_root(ps, y));
                assert(!parent_in(ps, order@, y));
                match ps[y as int] {
                    None => {},
                    Some(q) => {},
                }
            }
            if has_parent_first_order(ps) {
                let other = choose|o: Seq<usize>| is_parent_first_order(ps, o);
                lemma_dup_free_in_range(other, n as nat);
                assert(other.contains(x0));
                let k0 = choose|k: int| 0 <= k < other.len() && other[k] == x0;
                lemma_no_unvisited_in_order(ps, order@, other, k0);
            }
        }
        Err(HierarchyError::Cycle)
    }
}

/// Moving the last waiting joint to the end of the visited list keeps the
/// same set of listed joints, and keeps them duplicate-free.
proof fn lemma_visit_last_waiting(a: Seq<usize>, b: Seq<usize>)
    requires
        b.len() > 0,
    ensures
        forall|x: usize| (a.push(b.last()) + b.drop_last()).contains(x) <==> (a + b).contains(x),
        (a + b).no_duplicates() ==> (a.push(b.last()) + b.drop_last()).no_duplicates(),
{
    let new = a.push(b.last()) + b.drop_last();
    let old = a + b;
    let la = a.len() as int;
    let lb = b.len() as int;
    assert(new.len() == old.len());
    // new[w] == old[f(w)] where f moves position la to the last position.
    assert forall|w: int| 0 <= w < new.len() implies #[trigger] new[w] == old[
        if w < la { w } else if w == la { la + lb - 1 } else { w - 1 }
    ] by {
        if w < la {
        } else if w == la {
        } else {
            assert(new[w] == b.drop_last()[w - la - 1]);
        }
    }
    assert forall|x: usize| new.contains(x) <==> old.contains(x) by {
        if new.contains(x) {
            let w = choose|w: int| 0 <= w < new.len() && new[w] == x;
            let v = if w < la { w } else if w == la { la + lb - 1 } else { w - 1 };
            assert(old[v] == x);
        }
        if old.contains(x) {
            let v = choose|v: int| 0 <= v < old.len() && old[v] == x;
            let w = if v < la { v } else if v == la + lb - 1 { la } else { v + 1 };
            assert(new[w] == old[if w < la { w } else if w == la { la + lb - 1 } else { w - 1 }]);
            assert(new[w] == x);
        }
    }
    if old.no_duplicates() {
        assert forall|u: int, v: int| 0 <= u < new.len() && 0 <= v < new.len() && u != v implies new[u] != new[v] by {
            let fu = if u < la { u } else if u == la { la + lb - 1 } else { u - 1 };
            let fv = if v < la { v } else if v == la { la + lb - 1 } else { v - 1 };
            assert(new[u] == old[fu]);
            assert(new[v] == old[fv]);
        }
    }
}

/// In a parent-first order `other`, no joint at or before position `k` can
/// belong to a set of joints closed under "my parent is also in the set"
/// (here: the joints missing from `visited`).
proof fn lemma_no_unvisited_in_order(ps: Seq<Option<usize>>, visited: Seq<usize>, other: Seq<usize>, k: int)
    requires
        is_parent_first_order(ps, other),
        0 <= k < other.len(),
        forall|y: usize| (y as int) < ps.len() && !visited.contains(y) ==>
            (match ps[y as int] { None => false, Some(q) => !visited.contains(q) }),
    ensures
        visited.contains(other[k]),
    decreases k,
{
    let y = other[k];
    if !visited.contains(y) {
        assert(parent_listed_before(ps, other, k));
        match ps[y as int] {
            None => {},
            Some(q) => {
                assert(other.subrange(0, k).contains(q));
                let m = choose|m: int| 0 <= m < k && other.subrange(0, k)[m] == q;
                assert(other[m] == q);
                lemma_no_unvisited_in_order(ps, visited, other, m);
            },
        }
    }
}

/// A duplicate-free sequence of indices below `n` has at most `n` elements,
/// and when it has exactly `n` it contains every index below `n`.
proof fn lemma_dup_free_in_range(s: Seq<usize>, n: nat)
    requires
        s.no_duplicates(),
        forall|k: int| 0 <= k < s.len() ==> (s[k] as int) < n,
    ensures
        s.len() <= n,
        s.len() == n ==> forall|x: usize| (x as int) < n ==> s.contains(x),
{
    let t = s.map_values(|x: usize| x as int);
    assert(t.no_duplicates()) by {
        assert forall|a: int, b: int| 0 <= a < t.len() && 0 <= b < t.len() && a != b implies t[a] != t[b] by {
            assert(s[a] != s[b]);
        }
    }
    t.unique_seq_to_set();
    vstd::set_lib::lemma_int_range(0, n as int);
    assert(t.to_set().subset_of(vstd::set_lib::set_int_range(0, n as int))) by {
        assert forall|v: int| t.to_set().contains(v) implies vstd::set_lib::set_int_range(0, n as int).contains(v) by {
            assert(t.contains(v));
            let k = choose|k: int| 0 <= k < t.len() && t[k] == v;
            assert(t[k] == s[k] as int);
        }
    }
    vstd::set_lib::lemma_len_subset(t.to_set(), vstd::set_lib::set_int_range(0, n as int));
    if s.len() == n {
        assert forall|x: usize| (x as int) < n implies s.contains(x) by {
            if !s.contains(x) {
                let r = vstd::set_lib::set_int_range(0, n as int).remove(x as int);
                assert(t.to_set().subset_of(r)) by {
                    assert forall|v: int| t.to_set().contains(v) implies r.contains(v) by {
                        assert(t.contains(v));
                        let k = choose|k: int| 0 <= k < t.len() && t[k] == v;
                        assert(t[k] == s[k] as int);
                        assert(s[k] != x);
                    }
                }
                vstd::set_lib::lemma_len_subset(t.to_set(), r);
            }
        }
    }
}

/// A sequence containing every index below `n` has at least `n` elements.
proof fn lemma_covering_seq_is_long(s: Seq<usize>, n: usize)
    requires
        forall|x: usize| x < n ==> s.contains(x),
    ensures
        s.len() >= n,
{
    let t = s.map_values(|x: usize| x as int);
    vstd::set_lib::lemma_int_range(0, n as int);
    assert(vstd::set_lib::set_int_range(0, n as int).subset_of(t.to_set())) by {
        assert forall|v: int| vstd::set_lib::set_int_range(0, n as int).contains(v) implies t.to_set().contains(v) by {
            let x = v as usize;
            assert(s.contains(x));
            let k = choose|k: int| 0 <= k < s.len() && s[k] == x;
            assert(t[k] == v);
        }
    }
    t.lemma_cardinality_of_set();
    vstd::set_lib::lemma_len_subset(vstd::set_lib::set_int_range(0, n as int), t.to_set());
}

} // verus!
