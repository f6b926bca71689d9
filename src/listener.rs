//! The media hotkey listener: bindings, the watchers that fire them, and the
//! form in which bindings are stored.

use vstd::prelude::*;
use crate::controls::{control_name, lemma_control_name_injective, Controls};
use crate::keys::{key_name, lemma_key_name_reads_back, name_unreadable, reads_as, Key};
use crate::store::{to_map, Binding, MediaHotkeys};
use crate::watcher::{id_other_than, ids_unique, KeyHooks, KeyWatcher};

verus! {

/// The id of the watcher that fires `action` on `source`.
pub open spec fn media_id(source: Seq<char>, action: Controls) -> Seq<char> {
    source + "-"@ + control_name(action)
}

proof fn lemma_name_has_no_dash(c: Controls)
    ensures
        forall|i: int| 0 <= i < control_name(c).len() ==> control_name(c)[i] != '-',
{
    reveal_strlit("Pause");
    reveal_strlit("Play");
    reveal_strlit("Stop");
    reveal_strlit("Next");
    reveal_strlit("Previous");
}

/// Distinct source and action pairs get distinct watcher ids: an action name
/// holds no `-`, so the last `-` of an id parts source from action.
pub proof fn lemma_media_id_injective(s1: Seq<char>, a1: Controls, s2: Seq<char>, a2: Controls)
    requires
        media_id(s1, a1) == media_id(s2, a2),
    ensures
        s1 == s2,
        a1 == a2,
{
    reveal_strlit("-");
    let n1 = control_name(a1);
    let n2 = control_name(a2);
    let id = media_id(s1, a1);
    lemma_name_has_no_dash(a1);
    lemma_name_has_no_dash(a2);
    assert(id.len() == s1.len() + 1 + n1.len());
    assert(id.len() == s2.len() + 1 + n2.len());
    if n1.len() < n2.len() {
        let p = s1.len() as int;
        assert(id[p] == '-');
        assert(media_id(s2, a2)[p] == n2[p - s2.len() - 1]);
    } else if n2.len() < n1.len() {
        let p = s2.len() as int;
        assert(media_id(s2, a2)[p] == '-');
        assert(id[p] == n1[p - s1.len() - 1]);
    } else {
        assert forall|i: int| 0 <= i < s1.len() implies s1[i] == s2[i] by {
            assert(id[i] == s1[i]);
            assert(media_id(s2, a2)[i] == s2[i]);
        }
        assert(s1 =~= s2);
        assert forall|i: int| 0 <= i < n1.len() implies n1[i] == n2[i] by {
            assert(id[s1.len() + 1 + i] == n1[i]);
            assert(media_id(s2, a2)[s2.len() + 1 + i] == n2[i]);
        }
        assert(n1 =~= n2);
        lemma_control_name_injective(a1, a2);
    }
}

/// The id of the watcher that fires `action` on `source`.
pub fn media_watcher_id(source: &String, action: Controls) -> (r: String)
    ensures
        r@ == media_id(source@, action),
{
    let mut id = source.clone();
    id.append("-");
    let name = action.to_string();
    id.append(name.as_str());
    id
}

/// A binding as the front end sees it: a chord and the source and action it
/// runs.
pub struct HotKey {
    pub keys: Vec<Key>,
    pub runner: (String, Controls),
}

/// `w` fires `action` on `source` when `keys` are held.
pub open spec fn watches(w: KeyWatcher, source: Seq<char>, action: Controls, keys: Seq<Key>) -> bool {
    &&& w.key@ == media_id(source, action)
    &&& w.call_back.0@ == source
    &&& w.call_back.1 == action
    &&& w.keys@ == keys
}

/// Every binding of `m` has its watcher in `ws`.
pub open spec fn all_bound(ws: Seq<KeyWatcher>, m: Map<(Seq<char>, Controls), Seq<Key>>) -> bool {
    forall|k: (Seq<char>, Controls)| #[trigger] m.dom().contains(k) ==>
        exists|i: int| 0 <= i < ws.len() && watches(#[trigger] ws[i], k.0, k.1, m[k])
}

/// What the action name `s` stands for, if anything.
pub open spec fn action_named(s: Seq<char>) -> Option<Controls> {
    if exists|c: Controls| control_name(c) == s {
        Some(choose|c: Controls| control_name(c) == s)
    } else {
        None
    }
}

/// A binding as read back: source, action name and chord.
pub type LoadedBinding = (String, String, Vec<Key>);

/// `m` after the bindings of `v` were made in order; one whose action name
/// stands for no action is passed over.
pub open spec fn loaded(m: Map<(Seq<char>, Controls), Seq<Key>>, v: Seq<LoadedBinding>) -> Map<(Seq<char>, Controls), Seq<Key>>
    decreases v.len(),
{
    if v.len() == 0 {
        m
    } else {
        let before = loaded(m, v.drop_last());
        match action_named(v.last().1@) {
            Some(a) => before.insert((v.last().0@, a), v.last().2@),
            None => before,
        }
    }
}

/// A binding as stored: source, action name and key names.
pub type StoredBinding = (String, String, Vec<String>);

/// Some key name of `t` cannot be read.
pub open spec fn has_unreadable_name(t: Seq<StoredBinding>) -> bool {
    exists|i: int, j: int| 0 <= i < t.len() && 0 <= j < t[i].2@.len() && name_unreadable(#[trigger] t[i].2@[j]@)
}

/// The chord `keys` is what the key names `names` read as.
pub open spec fn chord_read(names: Seq<String>, keys: Seq<Key>) -> bool {
    keys.len() == names.len() && forall|j: int| 0 <= j < names.len() ==> reads_as(names[j]@, #[trigger] keys[j])
}

/// `v` is what the stored bindings `t` read as.
pub open spec fn decoded_from(t: Seq<StoredBinding>, v: Seq<LoadedBinding>) -> bool {
    v.len() == t.len() && forall|i: int| 0 <= i < t.len() ==> {
        &&& (#[trigger] v[i]).0@ == t[i].0@
        &&& v[i].1@ == t[i].1@
        &&& chord_read(t[i].2@, v[i].2@)
    }
}

/// The stored form of a chord: the names of its keys.
pub open spec fn names_of(names: Seq<String>, keys: Seq<Key>) -> bool {
    names.len() == keys.len() && forall|j: int| 0 <= j < keys.len() ==> (#[trigger] names[j])@ == key_name(keys[j])
}

/// Why stored bindings could not be loaded.
#[derive(Clone, Copy, Debug, PartialEq, Eq, Structural)]
pub enum LoadError {
    /// The store could not be read.
    Unreadable,
    /// The store was read but its content is not a set of bindings.
    Malformed,
}

/// Reads key names into a chord; `None` when one of them names no key.
pub fn decode_chord(names: &Vec<String>) -> (r: Option<Vec<Key>>)
    ensures
        r is None <==> exists|j: int| 0 <= j < names@.len() && name_unreadable(#[trigger] names@[j]@),
        r matches Some(keys) ==> chord_read(names@, keys@),
{
    let mut keys: Vec<Key> = Vec::new();
    let mut j: usize = 0;
    while j < names.len()
        invariant
            j <= names@.len(),
            keys@.len() == j,
            forall|x: int| 0 <= x < j ==> reads_as(names@[x]@, #[trigger] keys@[x]),
            forall|x: int| 0 <= x < j ==> !name_unreadable(#[trigger] names@[x]@),
        decreases names@.len() - j,
    {
        match Key::from_name(names[j].as_str()) {
            Some(k) => keys.push(k),
            None => {
                return None;
            },
        }
        j += 1;
    }
    Some(keys)
}

/// Reads stored bindings; `None` when a key name in them names no key.
pub fn decode_stored(stored: &Vec<StoredBinding>) -> (r: Option<Vec<LoadedBinding>>)
    ensures
        r is None <==> has_unreadable_name(stored@),
        r matches Some(v) ==> decoded_from(stored@, v@),
{
    let mut out: Vec<LoadedBinding> = Vec::new();
    let mut i: usize = 0;
    while i < stored.len()
        invariant
            i <= stored@.len(),
            out@.len() == i,
            forall|x: int| 0 <= x < i ==> {
                &&& (#[trigger] out@[x]).0@ == stored@[x].0@
                &&& out@[x].1@ == stored@[x].1@
                &&& chord_read(stored@[x].2@, out@[x].2@)
            },
            forall|x: int, y: int| 0 <= x < i && 0 <= y < stored@[x].2@.len() ==> !name_unreadable(#[trigger] stored@[x].2@[y]@),
        decreases stored@.len() - i,
    {
        let b = &stored[i];
        match decode_chord(&b.2) {
            Some(keys) => {
                out.push((b.0.clone(), b.1.clone(), keys));
            },
            None => {
                return None;
            },
        }
        i += 1;
    }
    Some(out)
}

/// The stored form of a chord: the names of its keys, in order.
pub fn chord_names(keys: &Vec<Key>) -> (r: Vec<String>)
    ensures
        names_of(r@, keys@),
{
    let mut names: Vec<String> = Vec::new();
    let mut j: usize = 0;
    while j < keys.len()
        invariant
            j <= keys@.len(),
            names@.len() == j,
            forall|x: int| 0 <= x < j ==> (#[trigger] names@[x])@ == key_name(keys@[x]),
        decreases keys@.len() - j,
    {
        names.push(keys[j].name());
        j += 1;
    }
    names
}

impl MediaHotkeys {
    /// The stored form of every binding, in binding order.
    pub fn to_stored(&self) -> (r: Vec<StoredBinding>)
        ensures
            stored_form(self.media_hot_keys@, r@),
    {
        let mut out: Vec<StoredBinding> = Vec::new();
        let mut i: usize = 0;
        while i < self.media_hot_keys.len()
            invariant
                i <= self.media_hot_keys@.len(),
                out@.len() == i,
                forall|x: int| 0 <= x < i ==> {
                    &&& (#[trigger] out@[x]).0@ == self.media_hot_keys@[x].0@
                    &&& out@[x].1@ == control_name(self.media_hot_keys@[x].1)
                    &&& names_of(out@[x].2@, self.media_hot_keys@[x].2@)
                },
            decreases self.media_hot_keys@.len() - i,
        {
            let b = &self.media_hot_keys[i];
            out.push((b.0.clone(), b.1.to_string(), chord_names(&b.2)));
            i += 1;
        }
        out
    }
}

/// A watcher seen as values: its id, source, action and chord.
pub type WatcherView = (Seq<char>, Seq<char>, Controls, Seq<Key>);

/// The values of a watcher.
pub open spec fn watcher_view() -> spec_fn(KeyWatcher) -> WatcherView {
    |w: KeyWatcher| (w.key@, w.call_back.0@, w.call_back.1, w.keys@)
}

/// The values of every watcher of `ws`, in order.
pub open spec fn views(ws: Seq<KeyWatcher>) -> Seq<WatcherView> {
    ws.map_values(watcher_view())
}

/// Holds of the watcher values whose id is not `id`.
pub open spec fn view_id_other_than(id: Seq<char>) -> spec_fn(WatcherView) -> bool {
    |x: WatcherView| x.0 != id
}

/// The watchers after binding `keys` to `action` on `source`: the watcher of
/// that pair leaves, and a new one for `keys` comes last.
pub open spec fn rebound(ws: Seq<WatcherView>, source: Seq<char>, action: Controls, keys: Seq<Key>) -> Seq<WatcherView> {
    ws.filter(view_id_other_than(media_id(source, action))).push((media_id(source, action), source, action, keys))
}

/// The watchers after the bindings of `v` were made in order; one whose
/// action name stands for no action is passed over.
pub open spec fn loaded_watchers(ws: Seq<WatcherView>, v: Seq<LoadedBinding>) -> Seq<WatcherView>
    decreases v.len(),
{
    if v.len() == 0 {
        ws
    } else {
        let before = loaded_watchers(ws, v.drop_last());
        match action_named(v.last().1@) {
            Some(a) => rebound(before, v.last().0@, a, v.last().2@),
            None => before,
        }
    }
}

proof fn lemma_views_filter(ws: Seq<KeyWatcher>, id: Seq<char>)
    ensures
        views(ws.filter(id_other_than(id))) == views(ws).filter(view_id_other_than(id)),
    decreases ws.len(),
{
    reveal(Seq::filter);
    if ws.len() > 0 {
        let t = ws.drop_last();
        let x = ws.last();
        assert(ws =~= t.push(x));
        lemma_views_filter(t, id);
        t.lemma_filter_push(x, id_other_than(id));
        assert(views(t.push(x)) =~= views(t).push(watcher_view()(x)));
        views(t).lemma_filter_push(watcher_view()(x), view_id_other_than(id));
        if x.key@ != id {
            assert(views(t.filter(id_other_than(id)).push(x)) =~= views(t.filter(id_other_than(id))).push(watcher_view()(x)));
        }
    } else {
        assert(ws.filter(id_other_than(id)) =~= Seq::<KeyWatcher>::empty());
        assert(views(ws) =~= Seq::<WatcherView>::empty());
        assert(views(ws).filter(view_id_other_than(id)) =~= Seq::<WatcherView>::empty());
    }
}

/// The listener's whole state: the hook's state and the bindings, with the
/// watcher of each binding registered.
pub struct MediaListener {
    pub hooks: KeyHooks,
    pub current_media: MediaHotkeys,
}

impl MediaListener {
    pub open spec fn wf(&self) -> bool {
        &&& self.hooks.wf()
        &&& self.current_media.wf()
        &&& all_bound(self.hooks.watchers@, self.current_media@)
    }

    /// No binding, no watcher, no hook.
    pub fn new() -> (r: MediaListener)
        ensures
            r.wf(),
            r.current_media@ == Map::<(Seq<char>, Controls), Seq<Key>>::empty(),
            r.hooks.watchers@.len() == 0,
            r.hooks.pressed@.len() == 0,
            !r.hooks.listening,
    {
        MediaListener { hooks: KeyHooks::new(), current_media: MediaHotkeys::new() }
    }

    /// Binds `keys` to `action` on `source`: the watcher of any earlier chord
    /// for that pair is removed, a watcher for `keys` is registered, and the
    /// binding replaces the earlier one. The caller then writes
    /// `current_media` to the store.
    pub fn subscribe_media(&mut self, source: String, keys: Vec<Key>, action: Controls)
        requires
            old(self).wf(),
        ensures
            final(self).wf(),
            final(self).current_media@ == old(self).current_media@.insert((source@, action), keys@),
            final(self).hooks.watchers@.len() > 0,
            final(self).hooks.watchers@.drop_last()
                == old(self).hooks.watchers@.filter(id_other_than(media_id(source@, action))),
            watches(final(self).hooks.watchers@.last(), source@, action, keys@),
            views(final(self).hooks.watchers@) == rebound(views(old(self).hooks.watchers@), source@, action, keys@),
            final(self).hooks.pressed == old(self).hooks.pressed,
            final(self).hooks.listening == old(self).hooks.listening,
    {
        let ghost ws = self.hooks.watchers@;
        let ghost m = self.current_media@;
        let id = media_watcher_id(&source, action);
        let ghost idv = id@;
        let _ = self.hooks.unsub(&id);
        let ghost filtered = self.hooks.watchers@;
        proof {
            assert forall|i: int| 0 <= i < filtered.len() implies (#[trigger] filtered[i]).key@ != idv by {
                ws.lemma_filter_pred(id_other_than(idv), i);
            }
        }
        let w = KeyWatcher { key: id, call_back: (source.clone(), action), keys: keys.clone() };
        let ghost wv = w;
        let _ = self.hooks.subscribe(w);
        self.current_media.record(source, action, keys);
        proof {
            let ws2 = self.hooks.watchers@;
            assert(ws2 == filtered.push(wv));
            assert(ws2.drop_last() =~= filtered);
            lemma_views_filter(ws, idv);
            assert(views(ws2) =~= views(filtered).push(watcher_view()(wv)));
            let m2 = self.current_media@;
            assert forall|k: (Seq<char>, Controls)| #[trigger] m2.dom().contains(k) implies
                exists|i: int| 0 <= i < ws2.len() && watches(#[trigger] ws2[i], k.0, k.1, m2[k]) by {
                if k == (source@, action) {
                    assert(watches(ws2[filtered.len() as int], k.0, k.1, m2[k]));
                } else {
                    assert(m.dom().contains(k));
                    let i = choose|i: int| 0 <= i < ws.len() && watches(#[trigger] ws[i], k.0, k.1, m[k]);
                    if ws[i].key@ == idv {
                        lemma_media_id_injective(k.0, k.1, source@, action);
                    }
                    ws.lemma_filter_contains(id_other_than(idv), i);
                    let j = choose|j: int| 0 <= j < filtered.len() && filtered[j] == ws[i];
                    assert(ws2[j] == filtered[j]);
                }
            }
        }
    }

    /// Makes the bindings of `v` in order, passing over one whose action name
    /// stands for no action.
    fn load_bindings(&mut self, v: &Vec<LoadedBinding>)
        requires
            old(self).wf(),
        ensures
            final(self).wf(),
            final(self).current_media@ == loaded(old(self).current_media@, v@),
            views(final(self).hooks.watchers@) == loaded_watchers(views(old(self).hooks.watchers@), v@),
            final(self).hooks.pressed == old(self).hooks.pressed,
            final(self).hooks.listening == old(self).hooks.listening,
    {
        let mut i: usize = 0;
        while i < v.len()
            invariant
                i <= v@.len(),
                self.wf(),
                self.current_media@ == loaded(old(self).current_media@, v@.subrange(0, i as int)),
                views(self.hooks.watchers@) == loaded_watchers(views(old(self).hooks.watchers@), v@.subrange(0, i as int)),
                self.hooks.pressed == old(self).hooks.pressed,
                self.hooks.listening == old(self).hooks.listening,
            decreases v@.len() - i,
        {
            let b = &v[i];
            proof {
                assert(v@.subrange(0, i + 1).drop_last() =~= v@.subrange(0, i as int));
                assert(v@.subrange(0, i + 1).last() == v@[i as int]);
            }
            match Controls::from_str(b.1.as_str()) {
                Ok(action) => {
                    proof {
                        assert(control_name(action) == b.1@);
                        let c = choose|c: Controls| control_name(c) == b.1@;
                        lemma_control_name_injective(c, action);
                    }
                    self.subscribe_media(b.0.clone(), b.2.clone(), action);
                },
                Err(_) => {},
            }
            i += 1;
        }
        proof {
            assert(v@.subrange(0, v@.len() as int) =~= v@);
        }
    }

    /// Loads stored bindings at startup: each one gets its watcher, made as
    /// `subscribe_media` makes it. When the store could not be read, or a key
    /// name in it names no key, nothing changes and the error is handed back.
    pub fn load_media(&mut self, file: Result<Vec<StoredBinding>, LoadError>) -> (r: Result<(), LoadError>)
        requires
            old(self).wf(),
        ensures
            final(self).wf(),
            file matches Err(e) ==> r == Err::<(), LoadError>(e),
            file matches Ok(t) ==> (r is Err <==> has_unreadable_name(t@)),
            file matches Ok(t) ==> (has_unreadable_name(t@) ==> r == Err::<(), LoadError>(LoadError::Malformed)),
            r is Err ==> *final(self) == *old(self),
            file matches Ok(t) ==> (r is Ok ==> exists|v: Seq<LoadedBinding>| #[trigger] decoded_from(t@, v)
                && final(self).current_media@ == loaded(old(self).current_media@, v)
                && views(final(self).hooks.watchers@) == loaded_watchers(views(old(self).hooks.watchers@), v)),
            old(self).current_media@ == Map::<(Seq<char>, Controls), Seq<Key>>::empty() && r is Err
                ==> final(self).current_media@ == Map::<(Seq<char>, Controls), Seq<Key>>::empty(),
            final(self).hooks.pressed == old(self).hooks.pressed,
            final(self).hooks.listening == old(self).hooks.listening,
    {
        match file {
            Err(e) => Err(e),
            Ok(t) => match decode_stored(&t) {
                None => Err(LoadError::Malformed),
                Some(v) => {
                    self.load_bindings(&v);
                    Ok(())
                },
            },
        }
    }
}

/// `t` is the stored form of the bindings `s`, as `to_stored` writes it.
pub open spec fn stored_form(s: Seq<Binding>, t: Seq<StoredBinding>) -> bool {
    t.len() == s.len() && forall|i: int| 0 <= i < t.len() ==> {
        &&& (#[trigger] t[i]).0@ == s[i].0@
        &&& t[i].1@ == control_name(s[i].1)
        &&& names_of(t[i].2@, s[i].2@)
    }
}

proof fn lemma_action_named(c: Controls)
    ensures
        action_named(control_name(c)) == Some(c),
{
    let d = choose|d: Controls| control_name(d) == control_name(c);
    lemma_control_name_injective(c, d);
}

proof fn lemma_loaded_matches(s: Seq<Binding>, v: Seq<LoadedBinding>)
    requires
        v.len() == s.len(),
        forall|i: int| 0 <= i < s.len() ==> {
            &&& (#[trigger] v[i]).0@ == s[i].0@
            &&& v[i].1@ == control_name(s[i].1)
            &&& v[i].2@ == s[i].2@
        },
    ensures
        loaded(Map::empty(), v) == to_map(s),
    decreases s.len(),
{
    if s.len() > 0 {
        let n = s.len() - 1;
        assert forall|i: int| 0 <= i < n implies {
            &&& (#[trigger] v.drop_last()[i]).0@ == s.drop_last()[i].0@
            &&& v.drop_last()[i].1@ == control_name(s.drop_last()[i].1)
            &&& v.drop_last()[i].2@ == s.drop_last()[i].2@
        } by {
            assert(v.drop_last()[i] == v[i]);
            assert(s.drop_last()[i] == s[i]);
        }
        lemma_loaded_matches(s.drop_last(), v.drop_last());
        assert(v[n].0@ == s[n].0@);
        lemma_action_named(s.last().1);
    }
}

/// Bindings written to the store and read back are the bindings that were
/// written: every name reads, and loading them into an empty listener gives
/// the same map.
pub proof fn lemma_store_round_trip(s: Seq<Binding>, t: Seq<StoredBinding>, v: Seq<LoadedBinding>)
    requires
        stored_form(s, t),
        decoded_from(t, v),
    ensures
        !has_unreadable_name(t),
        loaded(Map::empty(), v) == to_map(s),
{
    assert forall|i: int, j: int| 0 <= i < t.len() && 0 <= j < t[i].2@.len() implies
        !name_unreadable(#[trigger] t[i].2@[j]@) by {
        assert(t[i].2@[j]@ == key_name(s[i].2@[j]));
        assert(reads_as(t[i].2@[j]@, v[i].2@[j]));
    }
    assert forall|i: int| 0 <= i < s.len() implies {
        &&& (#[trigger] v[i]).0@ == s[i].0@
        &&& v[i].1@ == control_name(s[i].1)
        &&& v[i].2@ == s[i].2@
    } by {
        assert(t[i].0@ == s[i].0@);
        assert forall|j: int| 0 <= j < s[i].2@.len() implies v[i].2@[j] == s[i].2@[j] by {
            assert(t[i].2@[j]@ == key_name(s[i].2@[j]));
            assert(reads_as(t[i].2@[j]@, v[i].2@[j]));
            lemma_key_name_reads_back(s[i].2@[j], v[i].2@[j]);
        }
        assert(v[i].2@ =~= s[i].2@);
    }
    lemma_loaded_matches(s, v);
}

/// In a well-formed listener each binding has exactly one watcher: one is
/// registered, and no other has its id.
pub proof fn lemma_one_watcher_per_binding(l: MediaListener, k: (Seq<char>, Controls))
    requires
        l.wf(),
        l.current_media@.dom().contains(k),
    ensures
        exists|i: int| 0 <= i < l.hooks.watchers@.len()
            && watches(#[trigger] l.hooks.watchers@[i], k.0, k.1, l.current_media@[k])
            && forall|j: int| 0 <= j < l.hooks.watchers@.len()
                && (#[trigger] l.hooks.watchers@[j]).key@ == media_id(k.0, k.1) ==> j == i,
{
    let ws = l.hooks.watchers@;
    let i = choose|i: int| 0 <= i < ws.len() && watches(#[trigger] ws[i], k.0, k.1, l.current_media@[k]);
    assert forall|j: int| 0 <= j < ws.len() && (#[trigger] ws[j]).key@ == media_id(k.0, k.1) implies j == i by {
        if i < j {
            assert(ws[i].key@ != ws[j].key@);
        } else if j < i {
            assert(ws[j].key@ != ws[i].key@);
        }
    }
}

} // verus!
