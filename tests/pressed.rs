use recon::keys::Key;
use recon::pressed::PressedKeySet;

fn set_of(keys: &[Key]) -> PressedKeySet {
    let mut p = PressedKeySet::new();
    for k in keys {
        p.on_press(*k);
    }
    p
}

#[test]
fn contains_all_is_true_iff_every_chord_key_is_held() {
    let p = set_of(&[Key::ControlLeft, Key::Space, Key::A]);
    assert!(p.contains_all(&vec![Key::ControlLeft, Key::Space]));
    assert!(p.contains_all(&vec![Key::A]));
    assert!(p.contains_all(&vec![]));
    assert!(p.contains_all(&vec![Key::A, Key::A]));
    assert!(!p.contains_all(&vec![Key::ControlLeft, Key::B]));
    assert!(!set_of(&[]).contains_all(&vec![Key::A]));
}

#[test]
fn press_then_release_restores_the_set() {
    let mut p = set_of(&[Key::ShiftLeft, Key::Q]);
    let before = p.snapshot();
    p.on_press(Key::F5);
    assert_eq!(p.snapshot(), vec![Key::ShiftLeft, Key::Q, Key::F5]);
    p.on_release(Key::F5);
    assert_eq!(p.snapshot(), before);
}

#[test]
fn pressing_a_held_key_changes_nothing() {
    let mut p = set_of(&[Key::A, Key::B]);
    p.on_press(Key::A);
    assert_eq!(p.snapshot(), vec![Key::A, Key::B]);
}

#[test]
fn releasing_a_key_not_held_changes_nothing() {
    let mut p = set_of(&[Key::A]);
    p.on_release(Key::Z);
    assert_eq!(p.snapshot(), vec![Key::A]);
    let mut empty = PressedKeySet::new();
    empty.on_release(Key::Unknown(9999));
    assert!(empty.snapshot().is_empty());
}

#[test]
fn release_keeps_the_order_of_the_others() {
    let mut p = set_of(&[Key::A, Key::B, Key::C]);
    p.on_release(Key::B);
    assert_eq!(p.snapshot(), vec![Key::A, Key::C]);
    assert!(p.contains(Key::C));
    assert!(!p.contains(Key::B));
}
