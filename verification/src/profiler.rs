//! CPU frame-time and named-section statistics: a bounded history of
//! recent samples per series, with the latest and the average sample.
//! Durations are whole nanoseconds; taking the time is the caller's job.

use vstd::prelude::*;
use crate::text::str_eq;

verus! {

/// The number of recent samples a series keeps.
pub const HISTORY_LEN: usize = 120;

/// The sum of a sequence of samples.
pub open spec fn spec_sum(s: Seq<u64>) -> int
    decreases s.len(),
{
    if s.len() == 0 {
        0
    } else {
        spec_sum(s.drop_last()) + s.last()
    }
}

/// The history after recording `d`: appended, and the oldest sample
/// dropped once more than [`HISTORY_LEN`] are kept.
pub open spec fn spec_pushed(s: Seq<u64>, d: u64) -> Seq<u64> {
    if s.len() + 1 > HISTORY_LEN {
        s.push(d).drop_first()
    } else {
        s.push(d)
    }
}

/// The latest sample, or zero before any.
pub open spec fn spec_last(s: Seq<u64>) -> u64 {
    if s.len() == 0 { 0 } else { s.last() }
}

/// The average sample rounded down to a nanosecond, or zero before any.
pub open spec fn spec_average(s: Seq<u64>) -> int {
    if s.len() == 0 { 0 } else { spec_sum(s) / (s.len() as int) }
}

proof fn lemma_sum_bound(s: Seq<u64>)
    ensures 0 <= spec_sum(s) <= s.len() * (u64::MAX as int),
    decreases s.len(),
{
    if s.len() > 0 {
        lemma_sum_bound(s.drop_last());
    }
}

/// A bounded history of duration samples, in nanoseconds.
pub struct Samples {
    history: Vec<u64>,
}

impl Samples {
    pub closed spec fn spec_history(&self) -> Seq<u64> {
        self.history@
    }

    pub open spec fn well_formed(&self) -> bool {
        self.spec_history().len() <= HISTORY_LEN
    }

    pub fn new() -> (r: Self)
        ensures r.well_formed(), r.spec_history() == Seq::<u64>::empty(),
    {
        Samples { history: Vec::new() }
    }

    /// Records one sample, dropping the oldest beyond [`HISTORY_LEN`].
    pub fn push(&mut self, nanos: u64)
        requires old(self).well_formed(),
        ensures
            final(self).well_formed(),
            final(self).spec_history() == spec_pushed(old(self).spec_history(), nanos),
    {
        self.history.push(nanos);
        if self.history.len() > HISTORY_LEN {
            self.history.remove(0);
            assert(self.history@ =~= old(self).spec_history().push(nanos).drop_first());
        }
    }

    /// The latest sample, or zero before any.
    pub fn last(&self) -> (r: u64)
        ensures r == spec_last(self.spec_history()),
    {
        if self.history.len() == 0 {
            0
        } else {
            self.history[self.history.len() - 1]
        }
    }

    /// The average of the kept samples, rounded down, or zero before any.
    pub fn average(&self) -> (r: u64)
        requires self.well_formed(),
        ensures r == spec_average(self.spec_history()),
    {
        let n = self.history.len();
        if n == 0 {
            return 0;
        }
        let mut total: u128 = 0;
        let mut i: usize = 0;
        while i < n
            invariant
                n == self.history@.len(),
                n <= HISTORY_LEN,
                i <= n,
                total == spec_sum(self.history@.subrange(0, i as int)),
            decreases n - i,
        {
            let ghost pre = self.history@.subrange(0, i as int);
            assert(self.history@.subrange(0, i + 1).drop_last() =~= pre);
            proof { lemma_sum_bound(pre); }
            assert(total + self.history@[i as int] <= (i + 1) * (u64::MAX as int)) by (nonlinear_arith)
                requires total <= i * (u64::MAX as int), self.history@[i as int] <= u64::MAX;
            assert((i + 1) * (u64::MAX as int) <= 120 * (u64::MAX as int)) by (nonlinear_arith)
                requires i + 1 <= 120;
            total = total + self.history[i] as u128;
            i = i + 1;
        }
        assert(self.history@.subrange(0, n as int) =~= self.history@);
        proof { lemma_sum_bound(self.history@); }
        let avg = total / (n as u128);
        assert(avg <= u64::MAX) by (nonlinear_arith)
            requires avg == total / (n as u128), total <= n * (u64::MAX as int), n > 0;
        avg as u64
    }
}

/// Recording the same duration over a full history makes both the latest
/// and the average sample equal to it.
pub proof fn lemma_constant_history(s: Seq<u64>, d: u64)
    requires
        s.len() > 0,
        forall|i: int| 0 <= i < s.len() ==> s[i] == d,
    ensures
        spec_last(s) == d,
        spec_average(s) == d,
{
    lemma_sum_constant(s, d);
    assert(spec_sum(s) / (s.len() as int) == d) by (nonlinear_arith)
        requires spec_sum(s) == s.len() * d, s.len() > 0;
}

proof fn lemma_sum_constant(s: Seq<u64>, d: u64)
    requires forall|i: int| 0 <= i < s.len() ==> s[i] == d,
    ensures spec_sum(s) == s.len() * d,
    decreases s.len(),
{
    if s.len() > 0 {
        lemma_sum_constant(s.drop_last(), d);
        assert(spec_sum(s) == (s.len() - 1) * d + d);
        assert((s.len() - 1) * d + d == s.len() * d) by (nonlinear_arith);
    }
}

/// The text of each name in a list of names.
pub open spec fn str_views(names: Seq<&'static str>) -> Seq<Seq<char>> {
    names.map_values(|n: &'static str| n@)
}

/// The names of a profiler's sections, in the order first recorded.
pub open spec fn section_names_of(sections: Seq<(&'static str, Samples)>) -> Seq<Seq<char>> {
    sections.map_values(|e: (&'static str, Samples)| e.0@)
}

/// Frame-time statistics plus any number of named sections, each with its
/// own bounded history.
pub struct Profiler {
    frames: Samples,
    sections: Vec<(&'static str, Samples)>,
}

impl Profiler {
    pub closed spec fn spec_frames(&self) -> Seq<u64> {
        self.frames.spec_history()
    }

    pub closed spec fn spec_sections(&self) -> Seq<(&'static str, Samples)> {
        self.sections@
    }

    /// The history of the section named `name`, if it has been recorded.
    pub open spec fn spec_section(&self, name: Seq<char>) -> Option<Seq<u64>> {
        let names = section_names_of(self.spec_sections());
        if names.contains(name) {
            Some(self.spec_sections()[names.index_of(name)].1.spec_history())
        } else {
            None
        }
    }

    pub closed spec fn well_formed(&self) -> bool {
        &&& self.frames.well_formed()
        &&& section_names_of(self.sections@).no_duplicates()
        &&& forall|i: int| 0 <= i < self.sections@.len() ==> (#[trigger] self.sections@[i]).1.well_formed()
    }

    /// No frames or sections recorded yet.
    pub fn new() -> (r: Self)
        ensures
            r.well_formed(),
            r.spec_frames() == Seq::<u64>::empty(),
            r.spec_sections() == Seq::<(&'static str, Samples)>::empty(),
    {
        let r = Profiler { frames: Samples::new(), sections: Vec::new() };
        assert(section_names_of(r.sections@) =~= Seq::<Seq<char>>::empty());
        r
    }

    /// Records one frame's duration.
    pub fn record_frame(&mut self, nanos: u64)
        requires old(self).well_formed(),
        ensures
            final(self).well_formed(),
            final(self).spec_frames() == spec_pushed(old(self).spec_frames(), nanos),
            final(self).spec_sections() == old(self).spec_sections(),
    {
        self.frames.push(nanos);
    }

    /// The latest frame time, or zero before any frame.
    pub fn frame_time(&self) -> (r: u64)
        ensures r == spec_last(self.spec_frames()),
    {
        self.frames.last()
    }

    /// The average recent frame time, or zero before any frame.
    pub fn average_frame_time(&self) -> (r: u64)
        requires self.well_formed(),
        ensures r == spec_average(self.spec_frames()),
    {
        self.frames.average()
    }

    fn section_position(&self, name: &str) -> (r: Option<usize>)
        requires self.well_formed(),
        ensures
            match r {
                Some(i) => (i as int) < self.spec_sections().len()
                    && section_names_of(self.spec_sections()).index_of(name@) == i
                    && section_names_of(self.spec_sections()).contains(name@),
                None => !section_names_of(self.spec_sections()).contains(name@),
            },
    {
        let ghost names = section_names_of(self.sections@);
        let mut i: usize = 0;
        while i < self.sections.len()
            invariant
                i <= self.sections@.len(),
                names == section_names_of(self.sections@),
                names.no_duplicates(),
                forall|k: int| 0 <= k < i ==> names[k] != name@,
            decreases self.sections@.len() - i,
        {
            if str_eq(self.sections[i].0, name) {
                proof {
                    assert(names[i as int] == name@);
                    assert(names.contains(name@));
                    let j = names.index_of(name@);
                    assert(names[j] == name@);
                    assert(j == i as int);
                }
                return Some(i);
            }
            i = i + 1;
        }
        proof {
            if names.contains(name@) {
                let k = choose|k: int| 0 <= k < names.len() && names[k] == name@;
            }
        }
        None
    }

    /// Records one duration of the section named `name`, starting its
    /// history on first use.
    pub fn record_section(&mut self, name: &'static str, nanos: u64)
        requires old(self).well_formed(),
        ensures
            final(self).well_formed(),
            final(self).spec_frames() == old(self).spec_frames(),
            final(self).spec_section(name@) == Some(spec_pushed(
                match old(self).spec_section(name@) { Some(h) => h, None => Seq::<u64>::empty() },
                nanos,
            )),
            forall|other: Seq<char>| other != name@ ==> final(self).spec_section(other) == old(self).spec_section(other),
    {
        let ghost old_sections = self.sections@;
        let ghost old_names = section_names_of(old_sections);
        match self.section_position(name) {
            Some(i) => {
                let (n, mut samples) = self.sections.remove(i);
                samples.push(nanos);
                self.sections.insert(i, (n, samples));
                let ghost new_names = section_names_of(self.sections@);
                assert(new_names =~= old_names) by {
                    assert forall|k: int| 0 <= k < new_names.len() implies new_names[k] == old_names[k] by {
                        if k != i {
                            assert(self.sections@[k] == old_sections[k]);
                        }
                    }
                }
                assert forall|k: int| 0 <= k < self.sections@.len() implies (#[trigger] self.sections@[k]).1.well_formed() by {
                    if k != i {
                        assert(self.sections@[k] == old_sections[k]);
                    }
                }
                assert forall|other: Seq<char>| other != name@ implies
                    self.spec_section(other) == old(self).spec_section(other) by {
                    if old_names.contains(other) {
                        let j = old_names.index_of(other);
                        assert(old_names[j] == other);
                        assert(j != i as int);
                        assert(self.sections@[j] == old_sections[j]);
                    }
                }
            },
            None => {
                let mut samples = Samples::new();
                samples.push(nanos);
                self.sections.push((name, samples));
                let ghost new_names = section_names_of(self.sections@);
                assert(new_names =~= old_names.push(name@));
                assert(new_names.no_duplicates()) by {
                    assert forall|a: int, b: int| 0 <= a < b < new_names.len() implies new_names[a] != new_names[b] by {
                        if b == old_names.len() {
                            assert(old_names.contains(new_names[a]));
                        }
                    }
                }
                assert(new_names[old_names.len() as int] == name@);
                assert(new_names.index_of(name@) == old_names.len()) by {
                    let j = new_names.index_of(name@);
                    assert(new_names[j] == name@);
                    if j < old_names.len() {
                        assert(old_names[j] == name@);
                    }
                }
                assert(self.sections@[old_names.len() as int].1.spec_history() =~= spec_pushed(Seq::<u64>::empty(), nanos));
                assert forall|k: int| 0 <= k < self.sections@.len() implies (#[trigger] self.sections@[k]).1.well_formed() by {
                    if k < old_sections.len() {
                        assert(self.sections@[k] == old_sections[k]);
                    }
                }
                assert forall|other: Seq<char>| other != name@ implies
                    self.spec_section(other) == old(self).spec_section(other) by {
                    if old_names.contains(other) {
                        let j = old_names.index_of(other);
                        assert(old_names[j] == other);
                        assert(new_names[j] == other);
                        assert(new_names.index_of(other) == j) by {
                            let j2 = new_names.index_of(other);
                            assert(new_names[j2] == other);
                        }
                        assert(self.sections@[j] == old_sections[j]);
                    } else if new_names.contains(other) {
                        let j = choose|j: int| 0 <= j < new_names.len() && new_names[j] == other;
                        if j < old_names.len() {
                            assert(old_names[j] == other);
                        }
                    }
                }
            },
        }
    }

    /// The latest duration of the section named `name`, if recorded.
    pub fn section_time(&self, name: &str) -> (r: Option<u64>)
        requires self.well_formed(),
        ensures
            match self.spec_section(name@) {
                Some(h) => r == Some(spec_last(h)),
                None => r is None,
            },
    {
        match self.section_position(name) {
            Some(i) => Some(self.sections[i].1.last()),
            None => None,
        }
    }

    /// The average recent duration of the section named `name`, if recorded.
    pub fn average_section_time(&self, name: &str) -> (r: Option<u64>)
        requires self.well_formed(),
        ensures
            match self.spec_section(name@) {
                Some(h) => r == Some(spec_average(h) as u64),
                None => r is None,
            },
    {
        match self.section_position(name) {
            Some(i) => {
                assert(self.sections@[i as int].1.well_formed());
                Some(self.sections[i].1.average())
            },
            None => None,
        }
    }

    /// The names of every recorded section, in the order first recorded.
    pub fn section_names(&self) -> (r: Vec<&'static str>)
        ensures str_views(r@) == section_names_of(self.spec_sections()),
    {
        let mut out: Vec<&'static str> = Vec::new();
        let mut i: usize = 0;
        while i < self.sections.len()
            invariant
                i <= self.sections@.len(),
                out@.len() == i,
                forall|k: int| 0 <= k < i ==> (#[trigger] out@[k])@ == self.sections@[k].0@,
            decreases self.sections@.len() - i,
        {
            out.push(self.sections[i].0);
            i = i + 1;
        }
        assert(str_views(out@) =~= section_names_of(self.sections@));
        out
    }
}

} // verus!
