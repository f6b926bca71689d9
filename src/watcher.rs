//! Chord watchers, their registry, and the decisions taken on each hook event.

use vstd::prelude::*;
use crate::controls::Controls;
use crate::keys::{key_from_code, EventType, Key, key_code, is_known_code};
use crate::pressed::{chord_active, PressedKeySet};

verus! {

/// The media action a watcher performs when its chord is held: the source
/// application and the command.
pub type Runner = (String, Controls);

/// A chord and what to do while it is held, under an id unique in its registry.
pub struct KeyWatcher {
    pub key: String,
    pub call_back: Runner,
    pub keys: Vec<Key>,
}

/// Relies on uuid::Uuid::new_v4 and its `Display`: a random version-4 id,
/// written hyphenated in 36 characters.
#[verifier::external_body]
fn new_watcher_id() -> (r: String)
    ensures
        r@.len() == 36,
{
    uuid::Uuid::new_v4().to_string()
}

impl KeyWatcher {
    /// A watcher under a new random id.
    pub fn new(call_back: Runner, keys: Vec<Key>) -> (r: KeyWatcher)
        ensures
            r.call_back == call_back,
            r.keys == keys,
            r.key@.len() == 36,
    {
        KeyWatcher { key: new_watcher_id(), call_back, keys }
    }
}

/// Holds of the watchers whose id is not `id`.
pub open spec fn id_other_than(id: Seq<char>) -> spec_fn(KeyWatcher) -> bool {
    |w: KeyWatcher| w.key@ != id
}

/// Holds of the watchers whose chord is held in `pressed`.
pub open spec fn fires_on(pressed: Seq<Key>) -> spec_fn(KeyWatcher) -> bool {
    |w: KeyWatcher| chord_active(w.keys@, pressed)
}

/// The watchers that fire on `pressed`, in registry order.
pub open spec fn fired(ws: Seq<KeyWatcher>, pressed: Seq<Key>) -> Seq<KeyWatcher> {
    ws.filter(fires_on(pressed))
}

/// The actions of `ws`, in order.
pub open spec fn runners(ws: Seq<KeyWatcher>) -> Seq<Runner> {
    ws.map_values(|w: KeyWatcher| w.call_back)
}

/// Some watcher of `ws` has id `id`.
pub open spec fn has_id(ws: Seq<KeyWatcher>, id: Seq<char>) -> bool {
    exists|i: int| 0 <= i < ws.len() && (#[trigger] ws[i]).key@ == id
}

/// No two watchers of `ws` share an id.
pub open spec fn ids_unique(ws: Seq<KeyWatcher>) -> bool {
    forall|a: int, b: int| 0 <= a < b < ws.len() ==> (#[trigger] ws[a]).key@ != (#[trigger] ws[b]).key@
}

/// The registered watchers, in the order they were registered.
pub struct Watchers {
    list: Vec<KeyWatcher>,
}

impl View for Watchers {
    type V = Seq<KeyWatcher>;

    closed spec fn view(&self) -> Seq<KeyWatcher> {
        self.list@
    }
}

impl Watchers {
    pub open spec fn wf(&self) -> bool {
        ids_unique(self@)
    }

    /// No watcher.
    pub fn new() -> (r: Watchers)
        ensures
            r.wf(),
            r@ == Seq::<KeyWatcher>::empty(),
    {
        Watchers { list: Vec::new() }
    }

    /// Whether a watcher has id `key`.
    pub fn contains_id(&self, key: &String) -> (r: bool)
        ensures
            r == has_id(self@, key@),
    {
        let mut i: usize = 0;
        while i < self.list.len()
            invariant
                i <= self@.len(),
                forall|j: int| 0 <= j < i ==> (#[trigger] self@[j]).key@ != key@,
            decreases self@.len() - i,
        {
            if self.list[i].key == *key {
                return true;
            }
            i += 1;
        }
        false
    }

    /// An id that no watcher has: `base` followed by every registered id and
    /// a `+`, which is longer than any of them.
    fn unused_id(&self, base: String) -> (r: String)
        ensures
            !has_id(self@, r@),
    {
        let mut id = base;
        let mut i: usize = 0;
        while i < self.list.len()
            invariant
                i <= self@.len(),
                forall|j: int| 0 <= j < i ==> (#[trigger] self@[j]).key@.len() < id@.len(),
            decreases self@.len() - i,
        {
            proof {
                reveal_strlit("+");
            }
            id.append(self.list[i].key.as_str());
            id.append("+");
            i += 1;
        }
        proof {
            assert forall|j: int| 0 <= j < self@.len() implies (#[trigger] self@[j]).key@ != id@ by {
                assert(self@[j].key@.len() < id@.len());
            }
        }
        id
    }

    /// Registers `watcher` and hands back its id. Registering never fails: a
    /// watcher whose id is taken is registered under a new random id, or,
    /// should that be taken too, under an id longer than every registered one.
    pub fn subscribe(&mut self, watcher: KeyWatcher) -> (r: Result<String, ()>)
        requires
            old(self).wf(),
        ensures
            final(self).wf(),
            r matches Ok(id) && !has_id(old(self)@, id@)
                && final(self)@ == old(self)@.push((KeyWatcher { key: id, call_back: watcher.call_back, keys: watcher.keys })),
            !has_id(old(self)@, watcher.key@) ==> r == Ok::<String, ()>(watcher.key) && final(self)@ == old(self)@.push(watcher),
    {
        let ghost w = watcher;
        let KeyWatcher { key, call_back, keys } = watcher;
        let id = if !self.contains_id(&key) {
            key
        } else {
            let fresh = new_watcher_id();
            if !self.contains_id(&fresh) {
                fresh
            } else {
                self.unused_id(fresh)
            }
        };
        let ghost before = self@;
        self.list.push(KeyWatcher { key: id.clone(), call_back, keys });
        proof {
            assert forall|a: int, b: int| 0 <= a < b < self@.len() implies
                (#[trigger] self@[a]).key@ != (#[trigger] self@[b]).key@ by {
                if b == before.len() {
                    assert(before[a] == self@[a]);
                }
            }
        }
        Ok(id)
    }

    /// Removes the watcher with id `key`; `Err` when there is none.
    pub fn unsub(&mut self, key: &String) -> (r: Result<(), ()>)
        requires
            old(self).wf(),
        ensures
            final(self).wf(),
            r is Ok <==> has_id(old(self)@, key@),
            final(self)@ == old(self)@.filter(id_other_than(key@)),
    {
        let ghost s = self@;
        let mut found = false;
        let mut kept: Vec<KeyWatcher> = Vec::new();
        while self.list.len() > 0
            invariant
                ids_unique(s),
                self.list@.len() <= s.len(),
                self.list@ == s.subrange(s.len() - self.list@.len(), s.len() as int),
                kept@ == s.subrange(0, s.len() - self.list@.len()).filter(id_other_than(key@)),
                ids_unique(kept@),
                forall|a: int| 0 <= a < kept@.len() ==> exists|w: int| 0 <= w < s.len() - self.list@.len() && s[w] == #[trigger] kept@[a],
                found <==> has_id(s.subrange(0, s.len() - self.list@.len()), key@),
            decreases self.list@.len(),
        {
            let ghost done = s.len() - self.list@.len();
            let ghost n = kept@.len();
            let w = self.list.remove(0);
            proof {
                assert(s[done] == w);
                assert(s.subrange(0, done + 1) =~= s.subrange(0, done).push(w));
                s.subrange(0, done).lemma_filter_push(w, id_other_than(key@));
                assert(id_other_than(key@)(w) == (w.key@ != key@));
                assert(self.list@ =~= s.subrange(done + 1, s.len() as int));
            }
            if w.key == *key {
                found = true;
                proof {
                    assert(s.subrange(0, done + 1)[done] == w);
                }
            } else {
                proof {
                    assert forall|a: int| 0 <= a < kept@.len() implies kept@[a].key@ != w.key@ by {
                        let v = choose|v: int| 0 <= v < done && s[v] == kept@[a];
                        assert(s[v].key@ != s[done].key@);
                    }
                    if has_id(s.subrange(0, done), key@) {
                        let v = choose|v: int| 0 <= v < done && (#[trigger] s.subrange(0, done)[v]).key@ == key@;
                        assert(s.subrange(0, done + 1)[v] == s.subrange(0, done)[v]);
                    }
                    if has_id(s.subrange(0, done + 1), key@) {
                        let v = choose|v: int| 0 <= v < done + 1 && (#[trigger] s.subrange(0, done + 1)[v]).key@ == key@;
                        assert(s.subrange(0, done)[v] == s.subrange(0, done + 1)[v]);
                    }
                }
                kept.push(w);
            }
            proof {
                assert forall|a: int| 0 <= a < kept@.len() implies exists|v: int| 0 <= v < done + 1 && s[v] == #[trigger] kept@[a] by {
                    if a < n {
                        let v = choose|v: int| 0 <= v < done && s[v] == kept@[a];
                        assert(0 <= v < done + 1 && s[v] == kept@[a]);
                    } else {
                        assert(s[done] == kept@[a]);
                    }
                }
                if found && !has_id(s.subrange(0, done), key@) {
                    assert(s.subrange(0, done + 1)[done].key@ == key@);
                }
            }
        }
        proof {
            assert(s.subrange(0, s.len() as int) =~= s);
        }
        self.list = kept;
        if found {
            Ok(())
        } else {
            Err(())
        }
    }

    /// The actions of every watcher whose chord is held in `pressed`, once each,
    /// in registry order, whether or not the chord was held before. The registry is read, not changed: the list is fixed
    /// before any action runs.
    pub fn run_callbacks(&self, pressed: &PressedKeySet) -> (r: Vec<Runner>)
        ensures
            r@ == runners(fired(self@, pressed@)),
    {
        let ghost s = self@;
        let mut out: Vec<Runner> = Vec::new();
        let mut i: usize = 0;
        while i < self.list.len()
            invariant
                i <= s.len(),
                s == self@,
                out@ == runners(s.subrange(0, i as int).filter(fires_on(pressed@))),
            decreases s.len() - i,
        {
            let w = &self.list[i];
            proof {
                assert(s.subrange(0, i + 1) =~= s.subrange(0, i as int).push(*w));
                s.subrange(0, i as int).lemma_filter_push(*w, fires_on(pressed@));
                assert(fires_on(pressed@)(*w) == chord_active(w.keys@, pressed@));
            }
            if pressed.contains_all(&w.keys) {
                out.push((w.call_back.0.clone(), w.call_back.1));
                proof {
                    assert(out@ =~= runners(s.subrange(0, i as int).filter(fires_on(pressed@)).push(*w)));
                }
            }
            i += 1;
        }
        proof {
            assert(s.subrange(0, s.len() as int) =~= s);
        }
        out
    }
}

/// Two filters give the same result in either order.
pub proof fn lemma_filters_commute<A>(s: Seq<A>, p: spec_fn(A) -> bool, q: spec_fn(A) -> bool)
    ensures
        s.filter(p).filter(q) == s.filter(q).filter(p),
    decreases s.len(),
{
    reveal(Seq::filter);
    if s.len() > 0 {
        let t = s.drop_last();
        let x = s.last();
        assert(s =~= t.push(x));
        lemma_filters_commute(t, p, q);
        t.lemma_filter_push(x, p);
        t.lemma_filter_push(x, q);
        t.filter(p).lemma_filter_push(x, q);
        t.filter(q).lemma_filter_push(x, p);
    } else {
        assert(s.filter(p) =~= Seq::<A>::empty());
        assert(s.filter(q) =~= Seq::<A>::empty());
    }
}

/// Removing a watcher takes out exactly its own firings: every other watcher
/// fires on the same keys as before, once, and in the same order.
pub proof fn lemma_unsub_keeps_other_firings(ws: Seq<KeyWatcher>, id: Seq<char>, pressed: Seq<Key>)
    ensures
        fired(ws.filter(id_other_than(id)), pressed) == fired(ws, pressed).filter(id_other_than(id)),
{
    lemma_filters_commute(ws, id_other_than(id), fires_on(pressed));
}

/// The window message of a key going down.
pub const WM_KEYDOWN: u32 = 0x0100;
/// The window message of a key coming up.
pub const WM_KEYUP: u32 = 0x0101;
/// The window message of a key going down while Alt is held.
pub const WM_SYSKEYDOWN: u32 = 0x0104;
/// The hook code under which an event carries a keyboard message.
pub const HC_ACTION: i32 = 0;

/// The event that window message `param` reports for key `k`; `None` when the
/// message is not a key going down or coming up.
pub open spec fn event_of(param: u32, k: Key) -> Option<EventType> {
    if param == WM_KEYDOWN || param == WM_SYSKEYDOWN {
        Some(EventType::KeyPress(k))
    } else if param == WM_KEYUP {
        Some(EventType::KeyRelease(k))
    } else {
        None
    }
}

/// The key that virtual-key code `code` stands for, as `key_from_code` gives it.
pub open spec fn translates_to(code: u32, k: Key) -> bool {
    &&& is_known_code(code) ==> key_code(k) == Some(code)
    &&& !is_known_code(code) ==> k == Key::Unknown(code)
}

/// Decodes a keyboard message: the event it reports, if any, and its key.
pub fn convert(param: u32, code: u32) -> (r: (Option<EventType>, Key))
    ensures
        translates_to(code, r.1),
        r.0 == event_of(param, r.1),
{
    let key = key_from_code(code);
    if param == WM_KEYDOWN || param == WM_SYSKEYDOWN {
        (Some(EventType::KeyPress(key)), key)
    } else if param == WM_KEYUP {
        (Some(EventType::KeyRelease(key)), key)
    } else {
        (None, key)
    }
}

/// The held keys after event `e`.
pub open spec fn apply_event(pressed: Seq<Key>, e: EventType) -> Seq<Key> {
    match e {
        EventType::KeyPress(k) => if pressed.contains(k) { pressed } else { pressed.push(k) },
        EventType::KeyRelease(k) => crate::pressed::without(pressed, k),
    }
}

/// Why the hook was not installed.
#[derive(Clone, Copy, Debug, PartialEq, Eq, Structural)]
pub enum ListenError {
    AlreadyListening,
}

/// The state the keyboard hook works on: the held keys, the watchers, and
/// whether the hook is installed.
pub struct KeyHooks {
    pub pressed: PressedKeySet,
    pub watchers: Watchers,
    pub listening: bool,
}

impl KeyHooks {
    pub open spec fn wf(&self) -> bool {
        self.pressed.wf() && self.watchers.wf()
    }

    /// Nothing held, no watcher, no hook.
    pub fn new() -> (r: KeyHooks)
        ensures
            r.wf(),
            r.pressed@ == Seq::<Key>::empty(),
            r.watchers@ == Seq::<KeyWatcher>::empty(),
            !r.listening,
    {
        KeyHooks { pressed: PressedKeySet::new(), watchers: Watchers::new(), listening: false }
    }

    /// Whether the hook is installed.
    pub fn is_listening(&self) -> (r: bool)
        ensures
            r == self.listening,
    {
        self.listening
    }

    /// Claims the hook before it is installed. Installing twice is refused.
    pub fn listen(&mut self) -> (r: Result<(), ListenError>)
        ensures
            r is Err <==> old(self).listening,
            final(self).listening,
            final(self).pressed == old(self).pressed,
            final(self).watchers == old(self).watchers,
    {
        if self.listening {
            Err(ListenError::AlreadyListening)
        } else {
            self.listening = true;
            Ok(())
        }
    }

    /// Gives the hook up: installing it failed, or it was removed.
    pub fn stop_listening(&mut self)
        ensures
            !final(self).listening,
            final(self).pressed == old(self).pressed,
            final(self).watchers == old(self).watchers,
    {
        self.listening = false;
    }

    /// Registers a watcher; see `Watchers::subscribe`. Never fails.
    pub fn subscribe(&mut self, watcher: KeyWatcher) -> (r: Result<String, ()>)
        requires
            old(self).wf(),
        ensures
            final(self).wf(),
            final(self).pressed == old(self).pressed,
            final(self).listening == old(self).listening,
            r matches Ok(id) && !has_id(old(self).watchers@, id@)
                && final(self).watchers@ == old(self).watchers@.push((KeyWatcher { key: id, call_back: watcher.call_back, keys: watcher.keys })),
            !has_id(old(self).watchers@, watcher.key@) ==> r == Ok::<String, ()>(watcher.key)
                && final(self).watchers@ == old(self).watchers@.push(watcher),
    {
        self.watchers.subscribe(watcher)
    }

    /// Removes a watcher; see `Watchers::unsub`.
    pub fn unsub(&mut self, key: &String) -> (r: Result<(), ()>)
        requires
            old(self).wf(),
        ensures
            final(self).wf(),
            final(self).pressed == old(self).pressed,
            final(self).listening == old(self).listening,
            r is Ok <==> has_id(old(self).watchers@, key@),
            final(self).watchers@ == old(self).watchers@.filter(id_other_than(key@)),
    {
        self.watchers.unsub(key)
    }

    /// One call of the keyboard hook. A key event under `HC_ACTION` updates the
    /// held keys and hands back the actions of every watcher whose chord is then
    /// held; any other call changes nothing and fires nothing. A chord fires on
    /// every key event while it is held, not only on the event that completes
    /// it: holding a chord and pressing any key, or the key auto-repeating,
    /// fires it again. The caller passes the event on to the next hook whatever
    /// comes back.
    pub fn raw_callback(&mut self, code: i32, param: u32, vk_code: u32) -> (r: Vec<Runner>)
        requires
            old(self).wf(),
        ensures
            final(self).wf(),
            final(self).watchers == old(self).watchers,
            final(self).listening == old(self).listening,
            exists|k: Key| #![auto] translates_to(vk_code, k) && {
                let ev = if code == HC_ACTION { event_of(param, k) } else { None };
                match ev {
                    Some(e) => final(self).pressed@ == apply_event(old(self).pressed@, e)
                        && r@ == runners(fired(old(self).watchers@, final(self).pressed@)),
                    None => final(self).pressed@ == old(self).pressed@ && r@.len() == 0,
                }
            },
    {
        let (event, key) = convert(param, vk_code);
        if code != HC_ACTION {
            return Vec::new();
        }
        match event {
            Some(EventType::KeyPress(k)) => self.pressed.on_press(k),
            Some(EventType::KeyRelease(k)) => self.pressed.on_release(k),
            None => {
                return Vec::new();
            },
        }
        self.watchers.run_callbacks(&self.pressed)
    }
}

} // verus!
