use recon::controls::Controls;

#[test]
fn action_names_round_trip() {
    for c in [Controls::Pause, Controls::Play, Controls::Stop, Controls::Next, Controls::Previous] {
        assert_eq!(Controls::from_str(&c.to_string()), Ok(c));
    }
    assert_eq!(Controls::Previous.to_string(), "Previous");
}

#[test]
fn unknown_action_names_are_refused() {
    assert_eq!(Controls::from_str("play"), Err(()));
    assert_eq!(Controls::from_str(""), Err(()));
    assert_eq!(Controls::from_str("Play "), Err(()));
}
