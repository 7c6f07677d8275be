//! The texture cache: each image path is loaded at most once, and a failed
//! load is remembered forever (negative caching).
//!
//! The engine itself never touches the disk.  When a frame command names a
//! path the cache has not seen, the interpreter asks the host to load it;
//! the host records the outcome — a texture handle with its pixel size, or
//! the permanent failure marker — and from then on every reference to that
//! path is answered from the cache alone.

use vstd::prelude::*;

use crate::lines::chars_eq;

verus! {

/// A loaded image as the engine knows it: its pixel size and the host's
/// handle for it.
#[derive(Clone, Copy, PartialEq, Eq, Structural, Debug)]
pub struct Texture {
    pub width: u32,
    pub height: u32,
    /// The host's identifier for the uploaded texture.
    pub id: u64,
}

/// What the cache says about a path.
pub enum LoadDecision {
    /// The path is unknown: the host must attempt the one load now.
    Load,
    /// The path was seen before: use this outcome, touch nothing.
    Cached(Option<Texture>),
}

/// The decision for path `p` against cache contents `m`.
pub open spec fn load_decision(m: Map<Seq<char>, Option<Texture>>, p: Seq<char>) -> LoadDecision {
    if m.contains_key(p) {
        LoadDecision::Cached(m[p])
    } else {
        LoadDecision::Load
    }
}

/// The path-to-outcome store.  A key maps to `Some(texture)` after a
/// successful load and to `None` after a failed one.
pub struct TextureCache {
    entries: Vec<(Vec<char>, Option<Texture>)>,
}

/// The mapping a list of entries builds, later entries winning (the cache
/// never repeats a key, so order never matters).
pub open spec fn entries_map(s: Seq<(Vec<char>, Option<Texture>)>) -> Map<
    Seq<char>,
    Option<Texture>,
>
    decreases s.len(),
{
    if s.len() == 0 {
        Map::empty()
    } else {
        entries_map(s.drop_last()).insert(s.last().0@, s.last().1)
    }
}

impl View for TextureCache {
    type V = Map<Seq<char>, Option<Texture>>;

    closed spec fn view(&self) -> Map<Seq<char>, Option<Texture>> {
        entries_map(self.entries@)
    }
}

proof fn lemma_entries_map_index(s: Seq<(Vec<char>, Option<Texture>)>, i: int)
    requires
        0 <= i < s.len(),
        forall|j: int, k: int| 0 <= j < k < s.len() ==> s[j].0@ != s[k].0@,
    ensures
        entries_map(s).contains_key(s[i].0@),
        entries_map(s)[s[i].0@] == s[i].1,
    decreases s.len(),
{
    if i < s.len() - 1 {
        lemma_entries_map_index(s.drop_last(), i);
        assert(s.drop_last()[i] == s[i]);
        assert(s[i].0@ != s[s.len() - 1].0@);
    }
}

proof fn lemma_entries_map_absent(s: Seq<(Vec<char>, Option<Texture>)>, p: Seq<char>)
    requires
        forall|j: int| 0 <= j < s.len() ==> s[j].0@ != p,
    ensures
        !entries_map(s).contains_key(p),
    decreases s.len(),
{
    if s.len() > 0 {
        lemma_entries_map_absent(s.drop_last(), p);
    }
}

impl TextureCache {
    /// The cache's keys never repeat.
    pub closed spec fn wf(&self) -> bool {
        forall|j: int, k: int|
            0 <= j < k < self.entries@.len() ==> self.entries@[j].0@ != self.entries@[k].0@
    }

    /// An empty cache: nothing has been loaded or failed yet.
    pub fn new() -> (c: TextureCache)
        ensures
            c@ == Map::<Seq<char>, Option<Texture>>::empty(),
            c.wf(),
    {
        TextureCache { entries: Vec::new() }
    }

    /// What to do about `path`: load it now (first reference) or reuse the
    /// recorded outcome.  The cache itself is untouched.
    pub fn probe(&self, path: &[char]) -> (r: LoadDecision)
        requires
            self.wf(),
        ensures
            r == load_decision(self@, path@),
    {
        let n = self.entries.len();
        let mut j: usize = 0;
        while j < n
            invariant
                0 <= j <= n == self.entries@.len(),
                self.wf(),
                forall|k: int| 0 <= k < j ==> self.entries@[k].0@ != path@,
            decreases n - j,
        {
            if chars_eq(self.entries[j].0.as_slice(), path) {
                proof {
                    lemma_entries_map_index(self.entries@, j as int);
                }
                return LoadDecision::Cached(self.entries[j].1);
            }
            j = j + 1;
        }
        proof {
            lemma_entries_map_absent(self.entries@, path@);
        }
        LoadDecision::Load
    }

    /// Records the one load attempt's outcome for a path seen for the first
    /// time.  `None` is the permanent failure marker: the path will never be
    /// loaded again.
    pub fn record(&mut self, path: Vec<char>, outcome: Option<Texture>)
        requires
            old(self).wf(),
            !old(self)@.contains_key(path@),
        ensures
            final(self).wf(),
            final(self)@ == old(self)@.insert(path@, outcome),
    {
        proof {
            let s = self.entries@;
            assert forall|j: int| 0 <= j < s.len() implies s[j].0@ != path@ by {
                if s[j].0@ == path@ {
                    lemma_entries_map_index(s, j);
                }
            }
        }
        let ghost prev = self.entries@;
        self.entries.push((path, outcome));
        proof {
            assert(self.entries@.drop_last() =~= prev);
        }
    }
}

/// Law (negative caching): a path the cache does not know is loaded now —
/// and after its failure is recorded once, every later reference to the
/// same path is answered from the cache with the failure, never with
/// another load.  Recording requires an unknown key, so the one underlying
/// attempt can never be repeated for that path.
pub proof fn lemma_negative_caching(m: Map<Seq<char>, Option<Texture>>, p: Seq<char>)
    requires
        !m.contains_key(p),
    ensures
        load_decision(m, p) == LoadDecision::Load,
        load_decision(m.insert(p, None), p) == LoadDecision::Cached(None::<Texture>),
{
}

} // verus!
