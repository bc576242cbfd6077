//! Loading a skinned model together with extra animation clips from other
//! files: which file each clip name finally comes from. Loading the files
//! and building the meshes is the caller's work.

use vstd::prelude::*;
use crate::text::str_eq;

verus! {

/// Where a named clip comes from: file `0` is the model itself, file
/// `k + 1` the `k`-th extra animation file; `clip` is the clip's position
/// among that file's animations.
#[derive(Copy, Clone, Debug, PartialEq, Eq, Structural)]
pub struct ClipSource {
    pub file: usize,
    pub clip: usize,
}

/// Loads a glTF model with optional extra animation clips: start from
/// [`from_file`](Self::from_file) and add clips with
/// [`with_animation`](Self::with_animation).
pub struct SkinnedModelBuilder {
    primary: String,
    extra_clips: Vec<(String, String)>,
}

/// The names of a list of `(name, path)` pairs.
pub open spec fn pair_names(pairs: Seq<(String, String)>) -> Seq<Seq<char>> {
    pairs.map_values(|p: (String, String)| p.0@)
}

/// The paths of a list of `(name, path)` pairs.
pub open spec fn pair_paths(pairs: Seq<(String, String)>) -> Seq<Seq<char>> {
    pairs.map_values(|p: (String, String)| p.1@)
}

/// The clips of the model itself, each under its own name; where two share
/// a name the later one counts.
pub open spec fn primary_clips(names: Seq<String>, upto: int) -> Map<Seq<char>, ClipSource>
    decreases upto,
{
    if upto <= 0 {
        Map::empty()
    } else {
        primary_clips(names, upto - 1).insert(names[upto - 1]@, ClipSource { file: 0, clip: (upto - 1) as usize })
    }
}

/// The clips after the first `upto` extra files: every clip of the `k`-th
/// file is stored under that file's name in turn, so its last clip counts;
/// a file with no clips changes nothing.
pub open spec fn with_extra_clips(
    base: Map<Seq<char>, ClipSource>,
    names: Seq<Seq<char>>,
    counts: Seq<usize>,
    upto: int,
) -> Map<Seq<char>, ClipSource>
    decreases upto,
{
    if upto <= 0 {
        base
    } else {
        let before = with_extra_clips(base, names, counts, upto - 1);
        if counts[upto - 1] == 0 {
            before
        } else {
            before.insert(names[upto - 1], ClipSource { file: upto as usize, clip: (counts[upto - 1] - 1) as usize })
        }
    }
}

/// A table of `(name, source)` pairs holds each name once and maps it as
/// `m` does.
pub open spec fn table_is(t: Seq<(String, ClipSource)>, m: Map<Seq<char>, ClipSource>) -> bool {
    &&& forall|i: int, j: int| #![trigger t[i], t[j]] 0 <= i < j < t.len() ==> t[i].0@ != t[j].0@
    &&& forall|i: int| 0 <= i < t.len() ==> #[trigger] m.contains_key(t[i].0@) && m[t[i].0@] == t[i].1
    &&& forall|k: Seq<char>| #[trigger] m.contains_key(k) ==> exists|i: int| 0 <= i < t.len() && #[trigger] t[i].0@ == k
}

/// Stores `source` under `name`, replacing what the name held.
fn upsert(table: &mut Vec<(String, ClipSource)>, name: &String, source: ClipSource, Ghost(m): Ghost<Map<Seq<char>, ClipSource>>)
    requires
        table_is(old(table)@, m),
    ensures
        table_is(final(table)@, m.insert(name@, source)),
{
    let ghost t0 = table@;
    let mut i: usize = 0;
    while i < table.len()
        invariant
            table@ == t0,
            table_is(t0, m),
            i <= table@.len(),
            forall|k: int| 0 <= k < i ==> table@[k].0@ != name@,
        decreases table@.len() - i,
    {
        if str_eq(table[i].0.as_str(), name.as_str()) {
            let entry = (name.clone(), source);
            table.set(i, entry);
            proof {
                let t = table@;
                let m2 = m.insert(name@, source);
                assert forall|a: int, b: int| #![trigger t[a], t[b]] 0 <= a < b < t.len() implies t[a].0@ != t[b].0@ by {
                    assert(t0[a].0@ != t0[b].0@);
                    if a != i as int { assert(t[a] == t0[a]); }
                    if b != i as int { assert(t[b] == t0[b]); }
                }
                assert forall|a: int| 0 <= a < t.len() implies #[trigger] m2.contains_key(t[a].0@) && m2[t[a].0@] == t[a].1 by {
                    if a != i as int {
                        assert(t[a] == t0[a]);
                        assert(t0[a].0@ != t0[i as int].0@);
                        assert(m.contains_key(t0[a].0@));
                    }
                }
                assert forall|k: Seq<char>| #[trigger] m2.contains_key(k) implies exists|a: int| 0 <= a < t.len() && #[trigger] t[a].0@ == k by {
                    if k == name@ {
                        assert(t[i as int].0@ == k);
                    } else {
                        assert(m.contains_key(k));
                        let a = choose|a: int| 0 <= a < t0.len() && #[trigger] t0[a].0@ == k;
                        assert(a != i as int);
                        assert(t[a] == t0[a]);
                    }
                }
            }
            return;
        }
        i = i + 1;
    }
    table.push((name.clone(), source));
    proof {
        let t = table@;
        let m2 = m.insert(name@, source);
        let n = t0.len() as int;
        assert forall|a: int, b: int| #![trigger t[a], t[b]] 0 <= a < b < t.len() implies t[a].0@ != t[b].0@ by {
            if b < n {
                assert(t[a] == t0[a] && t[b] == t0[b]);
            } else {
                assert(t[a] == t0[a]);
            }
        }
        assert forall|a: int| 0 <= a < t.len() implies #[trigger] m2.contains_key(t[a].0@) && m2[t[a].0@] == t[a].1 by {
            if a < n {
                assert(t[a] == t0[a]);
                assert(m.contains_key(t0[a].0@));
            }
        }
        assert forall|k: Seq<char>| #[trigger] m2.contains_key(k) implies exists|a: int| 0 <= a < t.len() && #[trigger] t[a].0@ == k by {
            if k == name@ {
                assert(t[n].0@ == k);
            } else {
                let a = choose|a: int| 0 <= a < t0.len() && #[trigger] t0[a].0@ == k;
                assert(t[a] == t0[a]);
            }
        }
    }
}

impl SkinnedModelBuilder {
    /// The path of the model.
    pub closed spec fn spec_primary(&self) -> Seq<char> {
        self.primary@
    }

    /// The extra clips, as `(name, path)` pairs in the order added.
    pub closed spec fn spec_extra_clips(&self) -> Seq<(String, String)> {
        self.extra_clips@
    }

    /// Starts a builder that loads the model at `path`.
    pub fn from_file(path: &str) -> (r: Self)
        ensures
            r.spec_primary() == path@,
            r.spec_extra_clips().len() == 0,
    {
        SkinnedModelBuilder { primary: path.to_string(), extra_clips: Vec::new() }
    }

    /// Adds an extra animation clip loaded from `path` and stored under
    /// `name`.
    pub fn with_animation(self, name: String, path: String) -> (r: Self)
        ensures
            r.spec_primary() == self.spec_primary(),
            r.spec_extra_clips() == self.spec_extra_clips().push((name, path)),
    {
        let mut extra_clips = self.extra_clips;
        extra_clips.push((name, path));
        SkinnedModelBuilder { primary: self.primary, extra_clips }
    }

    /// The path of the model.
    pub fn primary(&self) -> (r: &String)
        ensures r@ == self.spec_primary(),
    {
        &self.primary
    }

    /// The extra clips, as `(name, path)` pairs in the order added.
    pub fn extra_clips(&self) -> (r: &Vec<(String, String)>)
        ensures r@ == self.spec_extra_clips(),
    {
        &self.extra_clips
    }

    /// Where each clip name of the loaded model finally comes from, given
    /// the names of the model's own clips and how many clips each extra
    /// file holds: the model's clips under their own names, then every
    /// clip of each extra file, in turn, under that file's name.
    pub fn clip_table(&self, primary_clip_names: &Vec<String>, extra_clip_counts: &Vec<usize>) -> (r: Vec<(String, ClipSource)>)
        requires
            extra_clip_counts@.len() == self.spec_extra_clips().len(),
            self.spec_extra_clips().len() < usize::MAX,
        ensures
            table_is(r@, with_extra_clips(
                primary_clips(primary_clip_names@, primary_clip_names@.len() as int),
                pair_names(self.spec_extra_clips()),
                extra_clip_counts@,
                extra_clip_counts@.len() as int,
            )),
    {
        let mut table: Vec<(String, ClipSource)> = Vec::new();
        let mut i: usize = 0;
        assert(table_is(table@, primary_clips(primary_clip_names@, 0)));
        while i < primary_clip_names.len()
            invariant
                i <= primary_clip_names@.len(),
                table_is(table@, primary_clips(primary_clip_names@, i as int)),
            decreases primary_clip_names@.len() - i,
        {
            upsert(&mut table, &primary_clip_names[i], ClipSource { file: 0, clip: i }, Ghost(primary_clips(primary_clip_names@, i as int)));
            i = i + 1;
        }
        let ghost base = primary_clips(primary_clip_names@, primary_clip_names@.len() as int);
        let ghost names = pair_names(self.extra_clips@);
        let mut k: usize = 0;
        while k < self.extra_clips.len()
            invariant
                extra_clip_counts@.len() == self.extra_clips@.len(),
                self.extra_clips@.len() < usize::MAX,
                names == pair_names(self.extra_clips@),
                k <= self.extra_clips@.len(),
                table_is(table@, with_extra_clips(base, names, extra_clip_counts@, k as int)),
            decreases self.extra_clips@.len() - k,
        {
            let count = extra_clip_counts[k];
            if count > 0 {
                let ghost m = with_extra_clips(base, names, extra_clip_counts@, k as int);
                assert(names[k as int] == self.extra_clips@[k as int].0@);
                upsert(&mut table, &self.extra_clips[k].0, ClipSource { file: k + 1, clip: count - 1 }, Ghost(m));
            }
            k = k + 1;
        }
        table
    }
}

} // verus!
