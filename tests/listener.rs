use recon::controls::Controls;
use recon::keys::Key;
use recon::listener::{decode_stored, media_watcher_id, LoadError, MediaListener, StoredBinding};
use recon::watcher::{HC_ACTION, WM_KEYDOWN, WM_KEYUP};

fn stored(source: &str, action: &str, keys: &[&str]) -> StoredBinding {
    (source.to_string(), action.to_string(), keys.iter().map(|k| k.to_string()).collect())
}

fn fixture_to_stored(text: &str) -> Vec<StoredBinding> {
    let value: serde_json::Value = serde_json::from_str(text).unwrap();
    let mut out = Vec::new();
    for (source, actions) in value.as_object().unwrap() {
        for (action, keys) in actions.as_object().unwrap() {
            let names = keys.as_array().unwrap().iter().map(|k| k.as_str().unwrap().to_string()).collect();
            out.push((source.clone(), action.clone(), names));
        }
    }
    out
}

fn stored_to_json(bindings: &[StoredBinding]) -> String {
    let mut root = serde_json::Map::new();
    for (source, action, keys) in bindings {
        let entry = root.entry(source.clone()).or_insert_with(|| serde_json::Value::Object(serde_json::Map::new()));
        let names = keys.iter().map(|k| serde_json::Value::String(k.clone())).collect();
        entry.as_object_mut().unwrap().insert(action.clone(), serde_json::Value::Array(names));
    }
    serde_json::to_string(&serde_json::Value::Object(root)).unwrap()
}

#[test]
fn save_of_load_reproduces_the_fixture() {
    let fixture = r#"{"App.Exe": {"Play": ["ControlLeft", "Space"]}}"#;
    let mut listener = MediaListener::new();
    assert_eq!(listener.load_media(Ok(fixture_to_stored(fixture))), Ok(()));
    let saved = stored_to_json(&listener.current_media.to_stored());
    let expected: serde_json::Value = serde_json::from_str(fixture).unwrap();
    assert_eq!(saved, serde_json::to_string(&expected).unwrap());
    assert_eq!(saved, stored_to_json(&listener.current_media.to_stored()));
}

#[test]
fn end_to_end_subscribe_and_fire() {
    let mut listener = MediaListener::new();
    assert_eq!(listener.load_media(Ok(Vec::new())), Ok(()));
    listener.subscribe_media("App.Exe".to_string(), vec![Key::A], Controls::Play);
    let first = listener.hooks.raw_callback(HC_ACTION, WM_KEYDOWN, 65);
    assert_eq!(first, vec![("App.Exe".to_string(), Controls::Play)]);
    assert!(listener.hooks.raw_callback(HC_ACTION, WM_KEYUP, 65).is_empty());
    let second = listener.hooks.raw_callback(HC_ACTION, WM_KEYDOWN, 65);
    assert_eq!(second, vec![("App.Exe".to_string(), Controls::Play)]);
}

#[test]
fn corrupted_store_loads_nothing_and_reports() {
    let mut listener = MediaListener::new();
    assert_eq!(listener.load_media(Err(LoadError::Malformed)), Err(LoadError::Malformed));
    assert!(listener.current_media.media_hot_keys.is_empty());
    assert_eq!(listener.load_media(Err(LoadError::Unreadable)), Err(LoadError::Unreadable));
    assert!(listener.current_media.media_hot_keys.is_empty());
}

#[test]
fn unreadable_key_name_makes_the_store_malformed() {
    let mut listener = MediaListener::new();
    let file = vec![stored("A", "Play", &["Space"]), stored("B", "Stop", &["NoSuchKey"])];
    assert_eq!(listener.load_media(Ok(file)), Err(LoadError::Malformed));
    assert!(listener.current_media.media_hot_keys.is_empty());
    assert!(listener.hooks.raw_callback(HC_ACTION, WM_KEYDOWN, 32).is_empty());
}

#[test]
fn unknown_action_names_are_passed_over() {
    let mut listener = MediaListener::new();
    let file = vec![stored("A", "Rewind", &["Space"]), stored("B", "Next", &["F1"])];
    assert_eq!(listener.load_media(Ok(file)), Ok(()));
    assert_eq!(listener.current_media.media_hot_keys.len(), 1);
    assert_eq!(listener.current_media.media_hot_keys[0].0, "B");
    assert!(listener.hooks.raw_callback(HC_ACTION, WM_KEYDOWN, 32).is_empty());
    assert_eq!(listener.hooks.raw_callback(HC_ACTION, WM_KEYDOWN, 112), vec![("B".to_string(), Controls::Next)]);
}

#[test]
fn rebinding_replaces_the_old_watcher() {
    let mut listener = MediaListener::new();
    listener.subscribe_media("S".to_string(), vec![Key::A], Controls::Play);
    listener.subscribe_media("S".to_string(), vec![Key::B], Controls::Play);
    assert_eq!(listener.current_media.media_hot_keys.len(), 1);
    assert_eq!(listener.current_media.media_hot_keys[0].2, vec![Key::B]);
    assert!(listener.hooks.raw_callback(HC_ACTION, WM_KEYDOWN, 65).is_empty());
    assert_eq!(listener.hooks.raw_callback(HC_ACTION, WM_KEYDOWN, 66), vec![("S".to_string(), Controls::Play)]);
}

#[test]
fn watcher_ids_join_source_and_action() {
    assert_eq!(media_watcher_id(&"App.Exe".to_string(), Controls::Previous), "App.Exe-Previous");
    let mut listener = MediaListener::new();
    listener.subscribe_media("App.Exe".to_string(), vec![Key::A], Controls::Stop);
    assert!(listener.hooks.watchers.contains_id(&"App.Exe-Stop".to_string()));
}

#[test]
fn stored_form_names_actions_and_keys() {
    let mut listener = MediaListener::new();
    listener.subscribe_media("S".to_string(), vec![Key::ControlLeft, Key::Unknown(9999)], Controls::Next);
    assert_eq!(listener.current_media.to_stored(), vec![stored("S", "Next", &["ControlLeft", "9999"])]);
    let back = decode_stored(&listener.current_media.to_stored()).unwrap();
    assert_eq!(back, vec![("S".to_string(), "Next".to_string(), vec![Key::ControlLeft, Key::Unknown(9999)])]);
}

#[test]
fn actions_of_lists_a_sources_bindings() {
    let mut listener = MediaListener::new();
    listener.subscribe_media("S".to_string(), vec![Key::A], Controls::Play);
    listener.subscribe_media("T".to_string(), vec![Key::B], Controls::Stop);
    listener.subscribe_media("S".to_string(), vec![Key::C], Controls::Next);
    let got = listener.current_media.actions_of(&"S".to_string()).unwrap();
    assert_eq!(got, vec![(Controls::Play, vec![Key::A]), (Controls::Next, vec![Key::C])]);
    assert!(listener.current_media.actions_of(&"U".to_string()).is_none());
}

#[test]
fn load_keeps_earlier_watchers_and_adds_one_per_binding() {
    let mut listener = MediaListener::new();
    listener.hooks.subscribe(recon::watcher::KeyWatcher {
        key: "manual".to_string(),
        call_back: ("M".to_string(), Controls::Pause),
        keys: vec![Key::Q],
    }).unwrap();
    let file = vec![stored("A", "Play", &["Space"]), stored("B", "Nope", &["F2"]), stored("C", "Stop", &["Space"])];
    assert_eq!(listener.load_media(Ok(file)), Ok(()));
    assert!(listener.hooks.watchers.contains_id(&"manual".to_string()));
    assert!(listener.hooks.watchers.contains_id(&"A-Play".to_string()));
    assert!(listener.hooks.watchers.contains_id(&"C-Stop".to_string()));
    assert!(!listener.hooks.watchers.contains_id(&"B-Nope".to_string()));
    assert_eq!(
        listener.hooks.raw_callback(HC_ACTION, WM_KEYDOWN, 32),
        vec![("A".to_string(), Controls::Play), ("C".to_string(), Controls::Stop)],
    );
    assert_eq!(
        listener.hooks.raw_callback(HC_ACTION, WM_KEYDOWN, 81),
        vec![("M".to_string(), Controls::Pause), ("A".to_string(), Controls::Play), ("C".to_string(), Controls::Stop)],
    );
}
