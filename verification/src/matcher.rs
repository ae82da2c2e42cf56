//! The input matcher: consumes key press/release events, maintains the
//! set of held keys, and resolves which manifest binding is current.
//!
//! Resolution is a pure function of the held set and the manifest: the
//! binding whose chord is fully held and longest wins, and among
//! equally long chords the one declared first in the manifest wins.

use vstd::prelude::*;
use crate::id::{Action, Id};
use crate::keys::{chord_matches, chord_satisfied, HeldKeys, KeyChord, KeyCode};

verus! {

/// How a matched shortcut maps to lifecycle phase calls.
#[derive(Clone, Copy, PartialEq, Eq, Structural, Debug)]
pub enum ActivationKind {
    /// Fires once on match and is cleared within the same event.
    OneShot,
    /// Matching its shortcut again while current deactivates it;
    /// otherwise it stays current until displaced.
    Toggle,
    /// Stays current only while its shortcut is the current match.
    Hold,
}

/// One manifest entry: an action, the chord that selects it, and its
/// activation kind.
pub struct Binding {
    pub id: Id<Action>,
    pub chord: KeyChord,
    pub kind: ActivationKind,
}

/// The best matching binding among the first `n` manifest entries, as
/// an index into the manifest: the longest fully-held chord wins, and
/// the earliest entry wins ties.
pub open spec fn best_match_upto(
    manifest: Seq<Binding>,
    held: Set<KeyCode>,
    n: int,
) -> Option<int>
    decreases n,
{
    if n <= 0 {
        None
    } else {
        let prev = best_match_upto(manifest, held, n - 1);
        let i = n - 1;
        if chord_satisfied(manifest[i].chord.keys@, held) {
            match prev {
                None => Some(i),
                Some(j) => if manifest[i].chord.keys@.len() > manifest[j].chord.keys@.len() {
                    Some(i)
                } else {
                    Some(j)
                },
            }
        } else {
            prev
        }
    }
}

/// The best matching binding of the whole manifest.
pub open spec fn best_match(manifest: Seq<Binding>, held: Set<KeyCode>) -> Option<int> {
    best_match_upto(manifest, held, manifest.len() as int)
}

/// The shortcut resolution state machine: the manifest and the set of
/// currently held keys. The current match is never cached; it is
/// recomputed from the held set on demand.
pub struct ActionMatcher {
    pub manifest: Vec<Binding>,
    pub held: HeldKeys,
}

impl ActionMatcher {
    /// The held set never holds a key twice.
    pub open spec fn wf(&self) -> bool {
        self.held.wf()
    }

    /// The current match, as the resolution rule defines it.
    pub open spec fn current_spec(&self) -> Option<int> {
        best_match(self.manifest@, self.held.set())
    }

    /// A matcher over the given manifest with no key held.
    pub fn new(manifest: Vec<Binding>) -> (r: ActionMatcher)
        ensures
            r.wf(),
            r.manifest@ == manifest@,
            r.held.set() == Set::<KeyCode>::empty(),
    {
        ActionMatcher { manifest, held: HeldKeys::new() }
    }

    /// Resolves the best matching binding for the current held set.
    pub fn current_match(&self) -> (r: Option<usize>)
        ensures
            match r {
                Some(i) => self.current_spec() == Some(i as int),
                None => self.current_spec() is None,
            },
    {
        let mut best: Option<usize> = None;
        let mut best_len: usize = 0;
        let mut i: usize = 0;
        while i < self.manifest.len()
            invariant
                i <= self.manifest@.len(),
                match best {
                    Some(j) => best_match_upto(self.manifest@, self.held.set(), i as int)
                        == Some(j as int) && j < i && best_len == self.manifest@[
                        j as int
                    ].chord.keys@.len(),
                    None => best_match_upto(self.manifest@, self.held.set(), i as int) is None,
                },
            decreases self.manifest@.len() - i,
        {
            if chord_matches(&self.manifest[i].chord, &self.held) {
                match best {
                    None => {
                        best = Some(i);
                        best_len = self.manifest[i].chord.len();
                    },
                    Some(_) => {
                        if self.manifest[i].chord.len() > best_len {
                            best = Some(i);
                            best_len = self.manifest[i].chord.len();
                        }
                    },
                }
            }
            i = i + 1;
        }
        best
    }

    /// Records a key press (repeats are filtered out by the caller)
    /// and reports whether the current match changed.
    pub fn key_pressed(&mut self, key: KeyCode) -> (changed: bool)
        requires
            old(self).wf(),
        ensures
            final(self).wf(),
            final(self).manifest@ == old(self).manifest@,
            final(self).held.set() == old(self).held.set().insert(key),
            changed == (final(self).current_spec() != old(self).current_spec()),
    {
        let before = self.current_match();
        self.held.press(key);
        let after = self.current_match();
        match_changed(before, after)
    }

    /// Records a key release and reports whether the current match
    /// changed. Resolution uses the post-removal held set, never a
    /// cached decision.
    pub fn key_released(&mut self, key: KeyCode) -> (changed: bool)
        requires
            old(self).wf(),
        ensures
            final(self).wf(),
            final(self).manifest@ == old(self).manifest@,
            final(self).held.set() == old(self).held.set().remove(key),
            changed == (final(self).current_spec() != old(self).current_spec()),
    {
        let before = self.current_match();
        self.held.release(key);
        let after = self.current_match();
        match_changed(before, after)
    }
}

/// Whether two resolution results differ.
fn match_changed(before: Option<usize>, after: Option<usize>) -> (r: bool)
    ensures
        r == !(match (before, after) {
            (Option::Some(a), Option::Some(b)) => a == b,
            (Option::None, Option::None) => true,
            _ => false,
        }),
{
    match (before, after) {
        (Option::Some(a), Option::Some(b)) => a != b,
        (Option::None, Option::None) => false,
        _ => true,
    }
}

/// The current match is a pure function of the held set and the
/// manifest: two matchers over the same manifest whose held sets are
/// equal resolve to the same binding, whatever event histories led to
/// those held sets.
pub proof fn lemma_match_determinism(a: ActionMatcher, b: ActionMatcher)
    requires
        a.manifest@ == b.manifest@,
        a.held.set() == b.held.set(),
    ensures
        a.current_spec() == b.current_spec(),
{
}


/// A resolved match is a real manifest index.
pub proof fn lemma_best_match_upto_range(manifest: Seq<Binding>, held: Set<KeyCode>, n: int)
    ensures
        match best_match_upto(manifest, held, n) {
            Some(i) => 0 <= i < n,
            None => true,
        },
    decreases n,
{
    if n > 0 {
        lemma_best_match_upto_range(manifest, held, n - 1);
    }
}

/// A resolved match is a real manifest index.
pub proof fn lemma_best_match_range(manifest: Seq<Binding>, held: Set<KeyCode>)
    ensures
        match best_match(manifest, held) {
            Some(i) => 0 <= i < manifest.len(),
            None => true,
        },
{
    lemma_best_match_upto_range(manifest, held, manifest.len() as int);
}

} // verus!
