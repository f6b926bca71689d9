use recon::controls::Controls;
use recon::keys::Key;
use recon::pressed::PressedKeySet;
use recon::watcher::{KeyHooks, KeyWatcher, ListenError, Watchers, HC_ACTION, WM_KEYDOWN, WM_KEYUP, WM_SYSKEYDOWN};

fn watcher(id: &str, source: &str, action: Controls, keys: Vec<Key>) -> KeyWatcher {
    KeyWatcher { key: id.to_string(), call_back: (source.to_string(), action), keys }
}

#[test]
fn new_watchers_get_distinct_hyphenated_ids() {
    let a = KeyWatcher::new(("App.Exe".to_string(), Controls::Play), vec![Key::A]);
    let b = KeyWatcher::new(("App.Exe".to_string(), Controls::Play), vec![Key::A]);
    assert_eq!(a.key.len(), 36);
    assert_eq!(a.key.matches('-').count(), 4);
    assert_ne!(a.key, b.key);
    assert_eq!(a.keys, vec![Key::A]);
}

#[test]
fn subscribe_gives_a_taken_id_a_fresh_one() {
    let mut ws = Watchers::new();
    assert_eq!(ws.subscribe(watcher("one", "S", Controls::Play, vec![Key::A])), Ok("one".to_string()));
    let second = ws.subscribe(watcher("one", "T", Controls::Stop, vec![Key::B])).unwrap();
    assert_ne!(second, "one");
    assert_eq!(second.len(), 36);
    assert!(ws.contains_id(&"one".to_string()));
    assert!(ws.contains_id(&second));
    let mut p = PressedKeySet::new();
    p.on_press(Key::A);
    p.on_press(Key::B);
    assert_eq!(ws.run_callbacks(&p), vec![("S".to_string(), Controls::Play), ("T".to_string(), Controls::Stop)]);
    assert_eq!(ws.unsub(&second), Ok(()));
    assert!(ws.contains_id(&"one".to_string()));
}

#[test]
fn subscribing_during_a_pass_does_not_change_it() {
    let mut hooks = KeyHooks::new();
    hooks.subscribe(watcher("a", "S1", Controls::Play, vec![Key::A])).unwrap();
    let fired = hooks.raw_callback(HC_ACTION, WM_KEYDOWN, 65);
    hooks.subscribe(watcher("b", "S2", Controls::Stop, vec![Key::A])).unwrap();
    assert_eq!(fired, vec![("S1".to_string(), Controls::Play)]);
    let next = hooks.raw_callback(HC_ACTION, WM_KEYDOWN, 65);
    assert_eq!(next, vec![("S1".to_string(), Controls::Play), ("S2".to_string(), Controls::Stop)]);
}

#[test]
fn unsub_of_an_absent_id_reports_not_found() {
    let mut ws = Watchers::new();
    assert_eq!(ws.unsub(&"missing".to_string()), Err(()));
    ws.subscribe(watcher("one", "S", Controls::Play, vec![Key::A])).unwrap();
    assert_eq!(ws.unsub(&"one".to_string()), Ok(()));
    assert!(!ws.contains_id(&"one".to_string()));
    assert_eq!(ws.unsub(&"one".to_string()), Err(()));
}

#[test]
fn held_chord_fires_on_every_event() {
    let mut hooks = KeyHooks::new();
    hooks.subscribe(watcher("w", "App.Exe", Controls::Play, vec![Key::A])).unwrap();
    let first = hooks.raw_callback(HC_ACTION, WM_KEYDOWN, 65);
    assert_eq!(first, vec![("App.Exe".to_string(), Controls::Play)]);
    let again = hooks.raw_callback(HC_ACTION, WM_KEYDOWN, 65);
    assert_eq!(again, vec![("App.Exe".to_string(), Controls::Play)]);
    let up = hooks.raw_callback(HC_ACTION, WM_KEYUP, 65);
    assert!(up.is_empty());
}

#[test]
fn chord_fires_only_when_complete() {
    let mut hooks = KeyHooks::new();
    hooks.subscribe(watcher("w", "S", Controls::Next, vec![Key::ControlLeft, Key::Space])).unwrap();
    assert!(hooks.raw_callback(HC_ACTION, WM_KEYDOWN, 162).is_empty());
    assert_eq!(hooks.raw_callback(HC_ACTION, WM_KEYDOWN, 32), vec![("S".to_string(), Controls::Next)]);
}

#[test]
fn system_key_down_counts_as_a_press() {
    let mut hooks = KeyHooks::new();
    hooks.subscribe(watcher("w", "S", Controls::Pause, vec![Key::Alt])).unwrap();
    assert_eq!(hooks.raw_callback(HC_ACTION, WM_SYSKEYDOWN, 164), vec![("S".to_string(), Controls::Pause)]);
    assert_eq!(hooks.pressed.snapshot(), vec![Key::Alt]);
}

#[test]
fn other_messages_and_codes_change_nothing() {
    let mut hooks = KeyHooks::new();
    hooks.subscribe(watcher("w", "S", Controls::Play, vec![])).unwrap();
    assert!(hooks.raw_callback(HC_ACTION, 0x0200, 65).is_empty());
    assert!(hooks.raw_callback(3, WM_KEYDOWN, 65).is_empty());
    assert!(hooks.pressed.snapshot().is_empty());
}

#[test]
fn unsubscribing_during_a_pass_keeps_the_others() {
    let mut hooks = KeyHooks::new();
    hooks.subscribe(watcher("a", "S1", Controls::Play, vec![Key::A])).unwrap();
    hooks.subscribe(watcher("b", "S2", Controls::Stop, vec![Key::A])).unwrap();
    hooks.subscribe(watcher("c", "S3", Controls::Next, vec![Key::A])).unwrap();
    let fired = hooks.raw_callback(HC_ACTION, WM_KEYDOWN, 65);
    let mut ran = Vec::new();
    for (i, runner) in fired.iter().enumerate() {
        if i == 0 {
            hooks.unsub(&"a".to_string()).unwrap();
            hooks.unsub(&"b".to_string()).unwrap();
        }
        ran.push(runner.clone());
    }
    assert_eq!(ran, vec![
        ("S1".to_string(), Controls::Play),
        ("S2".to_string(), Controls::Stop),
        ("S3".to_string(), Controls::Next),
    ]);
    let next = hooks.raw_callback(HC_ACTION, WM_KEYDOWN, 65);
    assert_eq!(next, vec![("S3".to_string(), Controls::Next)]);
}

#[test]
fn run_callbacks_reads_the_pressed_set() {
    let mut ws = Watchers::new();
    ws.subscribe(watcher("a", "S1", Controls::Play, vec![Key::A, Key::B])).unwrap();
    ws.subscribe(watcher("b", "S2", Controls::Stop, vec![Key::B])).unwrap();
    let mut p = PressedKeySet::new();
    p.on_press(Key::B);
    assert_eq!(ws.run_callbacks(&p), vec![("S2".to_string(), Controls::Stop)]);
}

#[test]
fn listening_twice_is_refused() {
    let mut hooks = KeyHooks::new();
    assert!(!hooks.is_listening());
    assert_eq!(hooks.listen(), Ok(()));
    assert_eq!(hooks.listen(), Err(ListenError::AlreadyListening));
    hooks.stop_listening();
    assert_eq!(hooks.listen(), Ok(()));
}
