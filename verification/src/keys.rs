//! Physical keys and key chords.
//!
//! A `KeyCode` stands for one physical key; a `KeyChord` is the set of
//! keys that must all be held for a shortcut to be satisfied.

use vstd::prelude::*;

verus! {

/// A physical key, identified by an opaque code.
#[derive(Clone, Copy, PartialEq, Eq, Structural, Hash, Debug)]
pub struct KeyCode(pub u32);

/// The keys that must all be held at once to satisfy a shortcut.
pub struct KeyChord {
    pub keys: Vec<KeyCode>,
}

/// Whether every key of the chord is in the held set.
pub open spec fn chord_satisfied(chord: Seq<KeyCode>, held: Set<KeyCode>) -> bool {
    forall|i: int| 0 <= i < chord.len() ==> held.contains(#[trigger] chord[i])
}

impl KeyChord {
    /// Builds a chord from the given keys.
    pub fn new(keys: Vec<KeyCode>) -> (r: KeyChord)
        ensures
            r.keys@ == keys@,
    {
        KeyChord { keys }
    }

    /// How many keys the chord requires.
    pub fn len(&self) -> (r: usize)
        ensures
            r == self.keys@.len(),
    {
        self.keys.len()
    }
}

/// The set of currently held keys, kept without duplicates so that its
/// length is the number of distinct held keys.
pub struct HeldKeys {
    pub keys: Vec<KeyCode>,
}

impl HeldKeys {
    /// The held keys as a mathematical set.
    pub open spec fn set(&self) -> Set<KeyCode> {
        self.keys@.to_set()
    }

    /// No key occurs twice.
    pub open spec fn wf(&self) -> bool {
        forall|i: int, j: int|
            0 <= i < j < self.keys@.len() ==> self.keys@[i] != self.keys@[j]
    }

    /// An empty held set.
    pub fn new() -> (r: HeldKeys)
        ensures
            r.wf(),
            r.set() == Set::<KeyCode>::empty(),
    {
        let r = HeldKeys { keys: Vec::new() };
        proof {
            assert(r.set() =~= Set::<KeyCode>::empty());
        }
        r
    }

    /// Whether the key is currently held.
    pub fn contains(&self, key: KeyCode) -> (r: bool)
        ensures
            r == self.set().contains(key),
    {
        let mut i: usize = 0;
        while i < self.keys.len()
            invariant
                i <= self.keys@.len(),
                forall|k: int| 0 <= k < i ==> self.keys@[k] != key,
            decreases self.keys@.len() - i,
        {
            if self.keys[i].0 == key.0 {
                return true;
            }
            i = i + 1;
        }
        proof {
            assert(!self.keys@.contains(key));
        }
        false
    }

    /// Adds a key to the held set; holding an already-held key changes
    /// nothing.
    pub fn press(&mut self, key: KeyCode)
        requires
            old(self).wf(),
        ensures
            final(self).wf(),
            final(self).set() == old(self).set().insert(key),
    {
        if !self.contains(key) {
            self.keys.push(key);
            proof {
                broadcast use vstd::prelude::Seq::lemma_push_to_set_commute;

                assert(self.set() =~= old(self).set().insert(key));
            }
        } else {
            proof {
                assert(self.set() =~= old(self).set().insert(key));
            }
        }
    }

    /// Removes a key from the held set; releasing a key that was not
    /// held changes nothing.
    pub fn release(&mut self, key: KeyCode)
        requires
            old(self).wf(),
        ensures
            final(self).wf(),
            final(self).set() == old(self).set().remove(key),
    {
        let mut i: usize = 0;
        while i < self.keys.len()
            invariant
                old(self).wf(),
                *self == *old(self),
                i <= self.keys@.len(),
                forall|k: int| 0 <= k < i ==> self.keys@[k] != key,
            decreases self.keys@.len() - i,
        {
            if self.keys[i].0 == key.0 {
                self.keys.remove(i);
                proof {
                    assert(self.wf());
                    assert forall|c: KeyCode| self.set().contains(c)
                        implies old(self).set().remove(key).contains(c) by {
                        let j = choose|j: int|
                            0 <= j < self.keys@.len() && self.keys@[j] == c;
                        if j < i {
                            assert(old(self).keys@[j] == c);
                        } else {
                            assert(old(self).keys@[j + 1] == c);
                        }
                    }
                    assert forall|c: KeyCode| old(self).set().remove(key).contains(c)
                        implies self.set().contains(c) by {
                        let j = choose|j: int|
                            0 <= j < old(self).keys@.len() && old(self).keys@[j] == c;
                        if j < i {
                            assert(self.keys@[j] == c);
                        } else {
                            assert(j != i);
                            assert(self.keys@[j - 1] == c);
                        }
                    }
                    assert(self.set() =~= old(self).set().remove(key));
                }
                return;
            }
            i = i + 1;
        }
        proof {
            assert(!self.keys@.contains(key));
            assert(self.set() =~= old(self).set().remove(key));
        }
    }
}

/// Whether every key of the chord is currently held.
pub fn chord_matches(chord: &KeyChord, held: &HeldKeys) -> (r: bool)
    ensures
        r == chord_satisfied(chord.keys@, held.set()),
{
    let mut i: usize = 0;
    while i < chord.keys.len()
        invariant
            i <= chord.keys@.len(),
            forall|k: int| 0 <= k < i ==> held.set().contains(#[trigger] chord.keys@[k]),
        decreases chord.keys@.len() - i,
    {
        if !held.contains(chord.keys[i]) {
            return false;
        }
        i = i + 1;
    }
    true
}

} // verus!
