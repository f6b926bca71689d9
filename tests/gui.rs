use recon::gui::{numeric_input, restore_selection, status_state_to_string, Event, MediaControlInput};

#[test]
fn steps_stop_at_the_ends() {
    let top = MediaControlInput::new(Some(u32::MAX), |v: Option<u32>| v);
    assert_eq!(top.update(&Event::IncrementPressed), Some(Some(u32::MAX)));
    let bottom = numeric_input(Some(0), |v: Option<u32>| v);
    assert_eq!(bottom.update(&Event::DecrementPressed), Some(Some(0)));
    let none = numeric_input(None, |v: Option<u32>| v);
    assert_eq!(none.update(&Event::IncrementPressed), Some(Some(1)));
    assert_eq!(numeric_input(Some(41), |v: Option<u32>| v).requested_value(&Event::IncrementPressed), Some(Some(42)));
}

#[test]
fn typed_text_sets_or_clears_the_value() {
    let input = numeric_input(Some(3), |v: Option<u32>| format!("{:?}", v));
    assert_eq!(input.update(&Event::InputChanged("".to_string())), Some("None".to_string()));
    assert_eq!(input.update(&Event::InputChanged("17".to_string())), Some("Some(17)".to_string()));
    assert_eq!(input.update(&Event::InputChanged("x1".to_string())), None);
    assert_eq!(input.update(&Event::InputChanged("99999999999".to_string())), None);
}

#[test]
fn saved_selection_is_kept_only_when_still_present() {
    let sources = vec!["A".to_string(), "B".to_string()];
    assert_eq!(restore_selection(Some("B".to_string()), &sources), Some("B".to_string()));
    assert_eq!(restore_selection(Some("C".to_string()), &sources), None);
    assert_eq!(restore_selection(None, &sources), None);
}

#[test]
fn status_labels() {
    assert_eq!(status_state_to_string(4), "Playing");
    assert_eq!(status_state_to_string(5), "Paused");
    assert_eq!(status_state_to_string(0), "Closed");
    assert_eq!(status_state_to_string(2), "Changing");
    assert_eq!(status_state_to_string(77), "Unknown");
}

use recon::controls::Controls;
use recon::gui::{GuiAction, MediaControl, Message};
use recon::keys::Key;

fn action_name(a: &GuiAction) -> String {
    format!("{:?}", a)
}

#[test]
fn transport_messages_go_to_the_chosen_application() {
    let mut gui = MediaControl::new();
    assert_eq!(action_name(&gui.update(Message::Play)), action_name(&GuiAction::NoApplication));
    gui.select("App.Exe".to_string(), 4, None);
    assert_eq!(
        action_name(&gui.update(Message::Next)),
        action_name(&GuiAction::Control("App.Exe".to_string(), Controls::Next)),
    );
    assert_eq!(gui.app_state, 4);
    gui.set_status(5);
    assert_eq!(gui.app_state, 5);
}

#[test]
fn application_choice_and_hotkeys_update_the_state() {
    let mut gui = MediaControl::new();
    assert_eq!(gui.title(), "Recon");
    assert_eq!(
        action_name(&gui.update(Message::SetCurrentApplication(Some("X".to_string())))),
        action_name(&GuiAction::Select("X".to_string())),
    );
    assert!(gui.current_application.is_none());
    gui.select("X".to_string(), 0, None);
    assert_eq!(action_name(&gui.update(Message::SetCurrentApplication(None))), action_name(&GuiAction::Nothing));
    assert!(gui.current_application.is_none());
    gui.update(Message::SetCurrentHotkeys(Some(vec![(Controls::Play, vec![Key::A])])));
    assert_eq!(gui.current_hotkey, Some(vec![(Controls::Play, vec![Key::A])]));
    assert_eq!(
        action_name(&gui.update(Message::PrintValue("Play".to_string()))),
        action_name(&GuiAction::Print("Play".to_string())),
    );
}
