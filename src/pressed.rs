//! The set of keys held down right now.

use vstd::prelude::*;
use crate::keys::Key;

verus! {

/// Every key of `chord` is held in `pressed`.
pub open spec fn chord_active(chord: Seq<Key>, pressed: Seq<Key>) -> bool {
    forall|i: int| 0 <= i < chord.len() ==> pressed.contains(#[trigger] chord[i])
}

/// Keys held down, in the order they went down, each at most once.
pub struct PressedKeySet {
    keys: Vec<Key>,
}

impl View for PressedKeySet {
    type V = Seq<Key>;

    closed spec fn view(&self) -> Seq<Key> {
        self.keys@
    }
}

/// Holds of every key but `key`.
pub open spec fn other_than(key: Key) -> spec_fn(Key) -> bool {
    |k: Key| k != key
}

/// The keys of `s` but `key`, in their order.
pub open spec fn without(s: Seq<Key>, key: Key) -> Seq<Key> {
    s.filter(other_than(key))
}

/// A filter that keeps every element leaves the sequence as it was.
pub proof fn lemma_filter_keeps_all<A>(s: Seq<A>, pred: spec_fn(A) -> bool)
    requires
        forall|i: int| 0 <= i < s.len() ==> pred(#[trigger] s[i]),
    ensures
        s.filter(pred) == s,
    decreases s.len(),
{
    reveal(Seq::filter);
    if s.len() > 0 {
        lemma_filter_keeps_all(s.drop_last(), pred);
        assert(s.drop_last().push(s.last()) =~= s);
    }
}

impl PressedKeySet {
    /// Each key appears once.
    pub open spec fn wf(&self) -> bool {
        self@.no_duplicates()
    }

    /// No key held.
    pub fn new() -> (r: PressedKeySet)
        ensures
            r.wf(),
            r@ == Seq::<Key>::empty(),
    {
        PressedKeySet { keys: Vec::new() }
    }

    /// Whether `key` is held.
    pub fn contains(&self, key: Key) -> (r: bool)
        ensures
            r == self@.contains(key),
    {
        let mut i: usize = 0;
        while i < self.keys.len()
            invariant
                i <= self.keys@.len(),
                forall|j: int| 0 <= j < i ==> self.keys@[j] != key,
            decreases self.keys@.len() - i,
        {
            if self.keys[i] == key {
                return true;
            }
            i += 1;
        }
        false
    }

    /// A key went down. Pressing a key already held changes nothing.
    pub fn on_press(&mut self, key: Key)
        requires
            old(self).wf(),
        ensures
            final(self).wf(),
            old(self)@.contains(key) ==> final(self)@ == old(self)@,
            !old(self)@.contains(key) ==> final(self)@ == old(self)@.push(key),
    {
        if !self.contains(key) {
            self.keys.push(key);
        }
    }

    /// A key came up. Releasing a key that is not held changes nothing.
    pub fn on_release(&mut self, key: Key)
        requires
            old(self).wf(),
        ensures
            final(self).wf(),
            final(self)@ == without(old(self)@, key),
    {
        let ghost s = self@;
        let mut kept: Vec<Key> = Vec::new();
        let mut i: usize = 0;
        while i < self.keys.len()
            invariant
                i <= s.len(),
                self@ == s,
                s.no_duplicates(),
                kept@ == without(s.subrange(0, i as int), key),
                forall|a: int, b: int| 0 <= a < b < kept@.len() ==> kept@[a] != kept@[b],
                forall|a: int| 0 <= a < kept@.len() ==> s.subrange(0, i as int).contains(#[trigger] kept@[a]),
            decreases s.len() - i,
        {
            let k = self.keys[i];
            let ghost n = kept@.len();
            proof {
                assert(s.subrange(0, i + 1) =~= s.subrange(0, i as int).push(k));
                s.subrange(0, i as int).lemma_filter_push(k, other_than(key));
            }
            if k != key {
                proof {
                    assert forall|a: int| 0 <= a < kept@.len() implies kept@[a] != k by {
                        let w = choose|w: int| 0 <= w < i && s.subrange(0, i as int)[w] == kept@[a];
                        assert(s[w] == kept@[a]);
                        assert(s[i as int] == k);
                    }
                }
                kept.push(k);
            }
            proof {
                assert forall|a: int| 0 <= a < kept@.len() implies s.subrange(0, i + 1).contains(#[trigger] kept@[a]) by {
                    if a < n {
                        let w = choose|w: int| 0 <= w < i && s.subrange(0, i as int)[w] == kept@[a];
                        assert(s.subrange(0, i + 1)[w] == kept@[a]);
                    } else {
                        assert(s.subrange(0, i + 1)[i as int] == kept@[a]);
                    }
                }
            }
            i += 1;
        }
        assert(s.subrange(0, s.len() as int) =~= s);
        self.keys = kept;
    }

    /// Whether every key of `chord` is held.
    pub fn contains_all(&self, chord: &Vec<Key>) -> (r: bool)
        ensures
            r == chord_active(chord@, self@),
    {
        let mut i: usize = 0;
        while i < chord.len()
            invariant
                i <= chord@.len(),
                forall|j: int| 0 <= j < i ==> self@.contains(#[trigger] chord@[j]),
            decreases chord@.len() - i,
        {
            if !self.contains(chord[i]) {
                return false;
            }
            i += 1;
        }
        true
    }

    /// A copy of the keys held, in the order they went down.
    pub fn snapshot(&self) -> (r: Vec<Key>)
        ensures
            r@ == self@,
    {
        self.keys.clone()
    }
}

/// Pressing a key that is not held and releasing it at once leaves the set as it
/// was before the press.
pub proof fn lemma_press_release_round_trip(before: Seq<Key>, key: Key)
    requires
        before.no_duplicates(),
        !before.contains(key),
    ensures
        without(before.push(key), key) == before,
{
    before.lemma_filter_push(key, other_than(key));
    lemma_filter_keeps_all(before, other_than(key));
}

} // verus!
