//! Window input state that is kept by the engine itself rather than read
//! off the windowing library: the set of active touch points, keyed by
//! touch id. `P` is the position type of a touch point.

use vstd::prelude::*;

verus! {

/// Phase of a touch event.
#[derive(Copy, Clone, Debug, PartialEq, Eq, Structural)]
pub enum TouchPhase {
    Started,
    Moved,
    Ended,
    Cancelled,
}

/// One active touch: its id, its latest position and the phase of its
/// latest event.
#[derive(Copy, Clone, Debug)]
pub struct TouchPoint<P> {
    pub id: u64,
    pub position: P,
    pub phase: TouchPhase,
}

/// The touch points of `touches` carry distinct ids.
pub open spec fn ids_unique<P>(touches: Seq<TouchPoint<P>>) -> bool {
    forall|i: int, j: int| 0 <= i < j < touches.len() ==> touches[i].id != touches[j].id
}

/// The active point with id `id`, if any.
pub open spec fn spec_touch<P>(touches: Seq<TouchPoint<P>>, id: u64) -> Option<TouchPoint<P>> {
    if exists|i: int| 0 <= i < touches.len() && touches[i].id == id {
        Some(touches[choose|i: int| 0 <= i < touches.len() && touches[i].id == id])
    } else {
        None
    }
}

/// The active touch points: a point is added or updated in place when its
/// touch starts or moves, and removed when it ends or is cancelled.
pub struct TouchSet<P> {
    touches: Vec<TouchPoint<P>>,
}

impl<P> TouchSet<P> {
    /// The active points, in the order their touches started.
    pub closed spec fn spec_touches(&self) -> Seq<TouchPoint<P>> {
        self.touches@
    }

    pub open spec fn well_formed(&self) -> bool {
        ids_unique(self.spec_touches())
    }

    /// No active touches.
    pub fn new() -> (r: Self)
        ensures
            r.well_formed(),
            r.spec_touches() == Seq::<TouchPoint<P>>::empty(),
    {
        TouchSet { touches: Vec::new() }
    }

    fn position_of(&self, id: u64) -> (r: Option<usize>)
        ensures
            match r {
                Some(i) => (i as int) < self.spec_touches().len() && self.spec_touches()[i as int].id == id,
                None => forall|k: int| 0 <= k < self.spec_touches().len() ==> self.spec_touches()[k].id != id,
            },
    {
        let mut i: usize = 0;
        while i < self.touches.len()
            invariant
                i <= self.touches@.len(),
                forall|k: int| 0 <= k < i ==> self.touches@[k].id != id,
            decreases self.touches@.len() - i,
        {
            if self.touches[i].id == id {
                return Some(i);
            }
            i = i + 1;
        }
        None
    }

    /// Records a touch event: a started or moved touch is added, or updated
    /// in place when its id is already active; an ended or cancelled touch
    /// is removed.
    pub fn handle_touch(&mut self, point: TouchPoint<P>)
        requires
            old(self).well_formed(),
        ensures
            final(self).well_formed(),
            match point.phase {
                TouchPhase::Started | TouchPhase::Moved => match spec_index_of_id(old(self).spec_touches(), point.id) {
                    Some(i) => final(self).spec_touches() == old(self).spec_touches().update(i, point),
                    None => final(self).spec_touches() == old(self).spec_touches().push(point),
                },
                TouchPhase::Ended | TouchPhase::Cancelled => match spec_index_of_id(old(self).spec_touches(), point.id) {
                    Some(i) => final(self).spec_touches() == old(self).spec_touches().remove(i),
                    None => final(self).spec_touches() == old(self).spec_touches(),
                },
            },
    {
        let found = self.position_of(point.id);
        proof {
            match found {
                Some(i) => lemma_index_of_id(self.spec_touches(), point.id, i as int),
                None => {},
            }
        }
        let ghost before = self.touches@;
        match point.phase {
            TouchPhase::Started | TouchPhase::Moved => {
                match found {
                    Some(i) => {
                        let id = point.id;
                        self.touches.set(i, point);
                        assert forall|a: int, b: int| 0 <= a < b < self.touches@.len()
                            implies self.touches@[a].id != self.touches@[b].id by {
                            assert(before[i as int].id == id);
                        }
                    },
                    None => {
                        self.touches.push(point);
                        assert forall|a: int, b: int| 0 <= a < b < self.touches@.len()
                            implies self.touches@[a].id != self.touches@[b].id by {
                            if b == before.len() {
                                assert(before[a].id != self.touches@[b].id);
                            }
                        }
                    },
                }
            },
            TouchPhase::Ended | TouchPhase::Cancelled => {
                match found {
                    Some(i) => {
                        self.touches.remove(i);
                        assert forall|a: int, b: int| 0 <= a < b < self.touches@.len()
                            implies self.touches@[a].id != self.touches@[b].id by {
                            let oa = if a < i { a } else { a + 1 };
                            let ob = if b < i { b } else { b + 1 };
                            assert(self.touches@[a] == before[oa]);
                            assert(self.touches@[b] == before[ob]);
                        }
                    },
                    None => {},
                }
            },
        }
    }

    /// The active points.
    pub fn touches(&self) -> (r: &Vec<TouchPoint<P>>)
        ensures r@ == self.spec_touches(),
    {
        &self.touches
    }

    /// The number of active touches.
    pub fn touch_count(&self) -> (r: usize)
        ensures r == self.spec_touches().len(),
    {
        self.touches.len()
    }
}

/// The position of the point with id `id`, if any.
pub open spec fn spec_index_of_id<P>(touches: Seq<TouchPoint<P>>, id: u64) -> Option<int> {
    if exists|i: int| 0 <= i < touches.len() && touches[i].id == id {
        Some(choose|i: int| 0 <= i < touches.len() && touches[i].id == id)
    } else {
        None
    }
}

/// With distinct ids, the position of an id is the one found.
proof fn lemma_index_of_id<P>(touches: Seq<TouchPoint<P>>, id: u64, i: int)
    requires
        ids_unique(touches),
        0 <= i < touches.len(),
        touches[i].id == id,
    ensures
        spec_index_of_id(touches, id) == Some(i),
{
    let j = choose|j: int| 0 <= j < touches.len() && touches[j].id == id;
    assert(j == i);
}

/// After a started or moved event the touch's id maps to exactly the new
/// point; after an ended or cancelled event it maps to nothing; every other
/// touch is unaffected.
pub proof fn lemma_touch_event<P>(before: TouchSet<P>, after: TouchSet<P>, point: TouchPoint<P>, other: u64)
    requires
        before.well_formed(),
        after.well_formed(),
        match point.phase {
            TouchPhase::Started | TouchPhase::Moved => match spec_index_of_id(before.spec_touches(), point.id) {
                Some(i) => after.spec_touches() == before.spec_touches().update(i, point),
                None => after.spec_touches() == before.spec_touches().push(point),
            },
            TouchPhase::Ended | TouchPhase::Cancelled => match spec_index_of_id(before.spec_touches(), point.id) {
                Some(i) => after.spec_touches() == before.spec_touches().remove(i),
                None => after.spec_touches() == before.spec_touches(),
            },
        },
    ensures
        (point.phase == TouchPhase::Started || point.phase == TouchPhase::Moved)
            ==> spec_touch(after.spec_touches(), point.id) == Some(point),
        (point.phase == TouchPhase::Ended || point.phase == TouchPhase::Cancelled)
            ==> spec_touch(after.spec_touches(), point.id) is None,
        other != point.id ==> spec_touch(after.spec_touches(), other) == spec_touch(before.spec_touches(), other),
{
    let b = before.spec_touches();
    let a = after.spec_touches();
    let found = spec_index_of_id(b, point.id);
    if found is Some {
        let i = found.unwrap();
        lemma_index_of_id(b, point.id, i);
    }
    // The touch's own id.
    if point.phase == TouchPhase::Started || point.phase == TouchPhase::Moved {
        let k = match found { Some(i) => i, None => b.len() as int };
        assert(a[k] == point);
        lemma_touch_at(a, point.id, k);
    } else {
        if exists|j: int| 0 <= j < a.len() && a[j].id == point.id {
            let j = choose|j: int| 0 <= j < a.len() && a[j].id == point.id;
            match found {
                Some(i) => {
                    let oj = if j < i { j } else { j + 1 };
                    assert(a[j] == b[oj]);
                },
                None => {},
            }
        }
    }
    // Any other id.
    if other != point.id {
        if exists|j: int| 0 <= j < b.len() && b[j].id == other {
            let j = choose|j: int| 0 <= j < b.len() && b[j].id == other;
            lemma_touch_at(b, other, j);
            let aj = match point.phase {
                TouchPhase::Started | TouchPhase::Moved => j,
                _ => match found {
                    Some(i) => if j < i { j } else { j - 1 },
                    None => j,
                },
            };
            if point.phase == TouchPhase::Ended || point.phase == TouchPhase::Cancelled {
                if found is Some {
                    assert(j != found.unwrap());
                }
            }
            assert(a[aj] == b[j]);
            lemma_touch_at(a, other, aj);
        } else {
            if exists|j: int| 0 <= j < a.len() && a[j].id == other {
                let j = choose|j: int| 0 <= j < a.len() && a[j].id == other;
                match point.phase {
                    TouchPhase::Started | TouchPhase::Moved => {
                        if j < b.len() {
                            assert(a[j] == b[j]);
                        }
                    },
                    _ => match found {
                        Some(i) => {
                            let oj = if j < i { j } else { j + 1 };
                            assert(a[j] == b[oj]);
                        },
                        None => {},
                    },
                }
            }
        }
    }
}

/// With distinct ids, the point found for an id is the one at its position.
proof fn lemma_touch_at<P>(touches: Seq<TouchPoint<P>>, id: u64, k: int)
    requires
        ids_unique(touches),
        0 <= k < touches.len(),
        touches[k].id == id,
    ensures
        spec_touch(touches, id) == Some(touches[k]),
{
    let j = choose|j: int| 0 <= j < touches.len() && touches[j].id == id;
    assert(j == k);
}

} // verus!
