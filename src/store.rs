//! Media hotkey bindings: which chord runs which action on which source.

use vstd::prelude::*;
use crate::controls::Controls;
use crate::keys::Key;

verus! {

/// One binding: the source application, the action, and the chord.
pub type Binding = (String, Controls, Vec<Key>);

/// What a binding is looked up by.
pub open spec fn binding_key(b: Binding) -> (Seq<char>, Controls) {
    (b.0@, b.1)
}

/// The bindings of `s` as a map; a later binding of the same pair wins.
pub open spec fn to_map(s: Seq<Binding>) -> Map<(Seq<char>, Controls), Seq<Key>>
    decreases s.len(),
{
    if s.len() == 0 {
        Map::empty()
    } else {
        to_map(s.drop_last()).insert(binding_key(s.last()), s.last().2@)
    }
}

/// No two bindings of `s` are for the same source and action.
pub open spec fn keys_unique(s: Seq<Binding>) -> bool {
    forall|a: int, b: int| 0 <= a < b < s.len() ==> binding_key(#[trigger] s[a]) != binding_key(#[trigger] s[b])
}

proof fn lemma_to_map_update(s: Seq<Binding>, i: int, b: Binding)
    requires
        keys_unique(s),
        0 <= i < s.len(),
        binding_key(b) == binding_key(s[i]),
    ensures
        to_map(s.update(i, b)) == to_map(s).insert(binding_key(b), b.2@),
    decreases s.len(),
{
    let t = s.update(i, b);
    if i == s.len() - 1 {
        assert(t.drop_last() =~= s.drop_last());
        assert(to_map(t) =~= to_map(s).insert(binding_key(b), b.2@));
    } else {
        assert(t.drop_last() =~= s.drop_last().update(i, b));
        lemma_to_map_update(s.drop_last(), i, b);
        assert(binding_key(s[i]) != binding_key(s.last()));
        assert(to_map(t) =~= to_map(s).insert(binding_key(b), b.2@));
    }
}

/// The bindings, one per source and action.
pub struct MediaHotkeys {
    pub media_hot_keys: Vec<Binding>,
}

impl View for MediaHotkeys {
    type V = Map<(Seq<char>, Controls), Seq<Key>>;

    open spec fn view(&self) -> Map<(Seq<char>, Controls), Seq<Key>> {
        to_map(self.media_hot_keys@)
    }
}

impl MediaHotkeys {
    pub open spec fn wf(&self) -> bool {
        keys_unique(self.media_hot_keys@)
    }

    /// No binding.
    pub fn new() -> (r: MediaHotkeys)
        ensures
            r.wf(),
            r@ == Map::<(Seq<char>, Controls), Seq<Key>>::empty(),
    {
        MediaHotkeys { media_hot_keys: Vec::new() }
    }

    /// Binds `keys` to `action` on `source`, in place of any chord bound to
    /// that pair before.
    pub fn record(&mut self, source: String, action: Controls, keys: Vec<Key>)
        requires
            old(self).wf(),
        ensures
            final(self).wf(),
            final(self)@ == old(self)@.insert((source@, action), keys@),
    {
        let ghost s = self.media_hot_keys@;
        let mut i: usize = 0;
        while i < self.media_hot_keys.len()
            invariant
                s == self.media_hot_keys@,
                s == old(self).media_hot_keys@,
                keys_unique(s),
                i <= s.len(),
                forall|j: int| 0 <= j < i ==> binding_key(#[trigger] s[j]) != (source@, action),
            decreases s.len() - i,
        {
            if self.media_hot_keys[i].0 == source && self.media_hot_keys[i].1 == action {
                let b = (source, action, keys);
                proof {
                    lemma_to_map_update(s, i as int, b);
                }
                self.media_hot_keys.set(i, b);
                assert(self.media_hot_keys@ == s.update(i as int, b));
                proof {
                    assert forall|x: int, y: int| 0 <= x < y < self.media_hot_keys@.len() implies
                        binding_key(#[trigger] self.media_hot_keys@[x]) != binding_key(#[trigger] self.media_hot_keys@[y]) by {
                        assert(binding_key(self.media_hot_keys@[x]) == binding_key(s[x]));
                        assert(binding_key(self.media_hot_keys@[y]) == binding_key(s[y]));
                    }
                }
                return;
            }
            i += 1;
        }
        let b = (source, action, keys);
        self.media_hot_keys.push(b);
        proof {
            assert(self.media_hot_keys@.drop_last() =~= s);
        }
    }

    /// The actions bound on `source` with their chords, in binding order;
    /// `None` when there is none.
    pub fn actions_of(&self, source: &String) -> (r: Option<Vec<(Controls, Vec<Key>)>>)
        ensures
            r is None <==> actions_on(self.media_hot_keys@, source@).len() == 0,
            r matches Some(v) ==> v@.map_values(pair_view()) == actions_on(self.media_hot_keys@, source@),
    {
        let ghost s = self.media_hot_keys@;
        let mut out: Vec<(Controls, Vec<Key>)> = Vec::new();
        let mut i: usize = 0;
        while i < self.media_hot_keys.len()
            invariant
                s == self.media_hot_keys@,
                i <= s.len(),
                out@.map_values(pair_view()) == actions_on(s.subrange(0, i as int), source@),
            decreases s.len() - i,
        {
            let b = &self.media_hot_keys[i];
            proof {
                assert(s.subrange(0, i + 1) =~= s.subrange(0, i as int).push(*b));
                s.subrange(0, i as int).lemma_filter_push(*b, on_source(source@));
                assert(on_source(source@)(*b) == (b.0@ == source@));
            }
            if b.0 == *source {
                let keys = b.2.clone();
                let ghost before = out@;
                out.push((b.1, keys));
                proof {
                    let f = s.subrange(0, i as int).filter(on_source(source@));
                    assert(out@.map_values(pair_view()) =~= before.map_values(pair_view()).push((b.1, b.2@)));
                    assert(f.push(*b).map_values(binding_action()) =~= f.map_values(binding_action()).push((b.1, b.2@)));
                }
            }
            i += 1;
        }
        proof {
            assert(s.subrange(0, s.len() as int) =~= s);
        }
        if out.len() == 0 {
            None
        } else {
            Some(out)
        }
    }
}

/// An action and its chord, seen as values.
pub open spec fn pair_view() -> spec_fn((Controls, Vec<Key>)) -> (Controls, Seq<Key>) {
    |p: (Controls, Vec<Key>)| (p.0, p.1@)
}

/// Holds of the bindings on `source`.
pub open spec fn on_source(source: Seq<char>) -> spec_fn(Binding) -> bool {
    |b: Binding| b.0@ == source
}

/// The actions bound on `source` with their chords, in the order of `s`.
pub open spec fn actions_on(s: Seq<Binding>, source: Seq<char>) -> Seq<(Controls, Seq<Key>)> {
    s.filter(on_source(source)).map_values(binding_action())
}

/// The action of a binding and its chord, seen as values.
pub open spec fn binding_action() -> spec_fn(Binding) -> (Controls, Seq<Key>) {
    |b: Binding| (b.1, b.2@)
}

} // verus!
