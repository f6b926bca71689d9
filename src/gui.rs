//! The values the front end works with, and the decisions it takes on them.

use vstd::prelude::*;
use crate::controls::Controls;
use crate::keys::Key;
use crate::text::{parse_u32, parsed_decimal};

verus! {

/// What the front end reacts to.
#[derive(Clone, Debug)]
pub enum Message {
    Play,
    Pause,
    Stop,
    Next,
    Previous,
    SetCurrentApplication(Option<String>),
    SetCurrentHotkeys(Option<Vec<(Controls, Vec<Key>)>>),
    PrintValue(String),
}

/// The front end's stored settings: the application chosen last.
#[derive(Clone, Debug)]
pub struct GuiPersist {
    pub selected_media: Option<String>,
}

/// The application to select at startup: the one chosen last, if it still
/// has a media session among `sources`.
pub fn restore_selection(saved: Option<String>, sources: &Vec<String>) -> (r: Option<String>)
    ensures
        r == (match saved {
            Some(name) => if exists|i: int| 0 <= i < sources@.len() && (#[trigger] sources@[i])@ == name@ {
                Some(name)
            } else {
                None
            },
            None => None,
        }),
{
    match saved {
        None => None,
        Some(name) => {
            let mut i: usize = 0;
            while i < sources.len()
                invariant
                    saved == Some(name),
                    i <= sources@.len(),
                    forall|j: int| 0 <= j < i ==> (#[trigger] sources@[j])@ != name@,
                decreases sources@.len() - i,
            {
                if sources[i] == name {
                    assert((sources@[i as int])@ == name@);
                    return Some(name);
                }
                i += 1;
            }
            None
        },
    }
}

/// Playback status codes of a media session, as the system reports them.
pub const STATUS_CLOSED: i32 = 0;
/// The session is open.
pub const STATUS_OPENED: i32 = 1;
/// The session is changing media.
pub const STATUS_CHANGING: i32 = 2;
/// Playback is stopped.
pub const STATUS_STOPPED: i32 = 3;
/// Playback is running.
pub const STATUS_PLAYING: i32 = 4;
/// Playback is paused.
pub const STATUS_PAUSED: i32 = 5;

/// The label shown for a playback status code.
pub open spec fn status_label(status: i32) -> Seq<char> {
    if status == STATUS_PLAYING { "Playing"@ }
    else if status == STATUS_PAUSED { "Paused"@ }
    else if status == STATUS_STOPPED { "Stopped"@ }
    else if status == STATUS_CLOSED { "Closed"@ }
    else if status == STATUS_OPENED { "Opened"@ }
    else if status == STATUS_CHANGING { "Changing"@ }
    else { "Unknown"@ }
}

/// The label shown for a playback status code.
pub fn status_state_to_string(status: i32) -> (r: &'static str)
    ensures
        r@ == status_label(status),
{
    if status == STATUS_PLAYING {
        "Playing"
    } else if status == STATUS_PAUSED {
        "Paused"
    } else if status == STATUS_STOPPED {
        "Stopped"
    } else if status == STATUS_CLOSED {
        "Closed"
    } else if status == STATUS_OPENED {
        "Opened"
    } else if status == STATUS_CHANGING {
        "Changing"
    } else {
        "Unknown"
    }
}

/// What the numeric input reacts to.
#[derive(Clone, Debug)]
pub enum Event {
    InputChanged(String),
    IncrementPressed,
    DecrementPressed,
}

/// A numeric input: its value and what to make of a new value.
pub struct MediaControlInput<F> {
    pub value: Option<u32>,
    pub on_change: F,
}

/// A numeric input showing `value`.
pub fn numeric_input<F>(value: Option<u32>, on_change: F) -> (r: MediaControlInput<F>)
    ensures
        r.value == value,
        r.on_change == on_change,
{
    MediaControlInput::new(value, on_change)
}

/// The new value that `event` asks for, when it asks for one: a step up or
/// down stops at the ends of `u32`, an absent value counts as zero, emptied
/// text clears the value, and text that is no number asks for nothing.
pub open spec fn next_value(value: Option<u32>, event: Event) -> Option<Option<u32>> {
    let v: int = match value { Some(n) => n as int, None => 0 };
    match event {
        Event::IncrementPressed => Some(Some(if v == u32::MAX { u32::MAX } else { (v + 1) as u32 })),
        Event::DecrementPressed => Some(Some(if v == 0 { 0u32 } else { (v - 1) as u32 })),
        Event::InputChanged(s) => if s@.len() == 0 {
            Some(None)
        } else {
            match parsed_decimal(s@) {
                Some(n) => Some(Some(n)),
                None => None,
            }
        },
    }
}

impl<F> MediaControlInput<F> {
    /// A numeric input showing `value`.
    pub fn new(value: Option<u32>, on_change: F) -> (r: MediaControlInput<F>)
        ensures
            r.value == value,
            r.on_change == on_change,
    {
        MediaControlInput { value, on_change }
    }

    /// The new value that `event` asks for; see `next_value`.
    pub fn requested_value(&self, event: &Event) -> (r: Option<Option<u32>>)
        ensures
            r == next_value(self.value, *event),
    {
        let v: u32 = match self.value {
            Some(n) => n,
            None => 0,
        };
        match event {
            Event::IncrementPressed => Some(Some(v.saturating_add(1))),
            Event::DecrementPressed => Some(Some(v.saturating_sub(1))),
            Event::InputChanged(s) => {
                if s.as_str().is_empty() {
                    Some(None)
                } else {
                    match parse_u32(s.as_str()) {
                        Some(n) => Some(Some(n)),
                        None => None,
                    }
                }
            },
        }
    }

    /// Reacts to `event`: the message `on_change` makes of the new value, when
    /// the event asks for one.
    pub fn update<M>(&self, event: &Event) -> (r: Option<M>)
        where
            F: Fn(Option<u32>) -> M,
        requires
            forall|v: Option<u32>| self.on_change.requires((v,)),
        ensures
            match next_value(self.value, *event) {
                Some(v) => r matches Some(m) && self.on_change.ensures((v,), m),
                None => r is None,
            },
    {
        match self.requested_value(event) {
            Some(v) => Some((self.on_change)(v)),
            None => None,
        }
    }
}

/// What the front end must do after a message: the part that needs the
/// media sessions or the console.
#[derive(Clone, Debug)]
pub enum GuiAction {
    /// Nothing more.
    Nothing,
    /// Send the command to the session of the application, then read its
    /// status back.
    Control(String, Controls),
    /// Look the application up; when it has a session, make it the current one.
    Select(String),
    /// Show the text.
    Print(String),
    /// A command came with no application chosen.
    NoApplication,
}

/// The front end's state: the chosen application, its playback status code,
/// and its bindings.
pub struct MediaControl {
    pub app_state: i32,
    pub current_application: Option<String>,
    pub current_hotkey: Option<Vec<(Controls, Vec<Key>)>>,
}

/// The command that a transport message asks for.
pub open spec fn message_control(m: Message) -> Option<Controls> {
    match m {
        Message::Play => Some(Controls::Play),
        Message::Pause => Some(Controls::Pause),
        Message::Stop => Some(Controls::Stop),
        Message::Next => Some(Controls::Next),
        Message::Previous => Some(Controls::Previous),
        _ => None,
    }
}

impl MediaControl {
    /// No application chosen, status closed.
    pub fn new() -> (r: MediaControl)
        ensures
            r.app_state == STATUS_CLOSED,
            r.current_application is None,
            r.current_hotkey is None,
    {
        MediaControl { app_state: STATUS_CLOSED, current_application: None, current_hotkey: None }
    }

    /// The window title.
    pub fn title(&self) -> (r: String)
        ensures
            r@ == "Recon"@,
    {
        "Recon".to_owned()
    }

    /// Takes a message: a transport command goes to the chosen application, a
    /// choice of application is looked up, and the rest updates the state.
    pub fn update(&mut self, message: Message) -> (r: GuiAction)
        ensures
            message_control(message) matches Some(c) ==> {
                &&& *final(self) == *old(self)
                &&& match old(self).current_application {
                    Some(x) => r == GuiAction::Control(x, c),
                    None => r == GuiAction::NoApplication,
                }
            },
            message matches Message::SetCurrentApplication(Some(x)) ==> *final(self) == *old(self) && r == GuiAction::Select(x),
            message matches Message::SetCurrentApplication(None) ==> r == GuiAction::Nothing
                && final(self).current_application is None
                && final(self).app_state == old(self).app_state
                && final(self).current_hotkey == old(self).current_hotkey,
            message matches Message::SetCurrentHotkeys(h) ==> r == GuiAction::Nothing
                && final(self).current_hotkey == h
                && final(self).app_state == old(self).app_state
                && final(self).current_application == old(self).current_application,
            message matches Message::PrintValue(v) ==> *final(self) == *old(self) && r == GuiAction::Print(v),
    {
        let control = match message {
            Message::Play => Controls::Play,
            Message::Pause => Controls::Pause,
            Message::Stop => Controls::Stop,
            Message::Next => Controls::Next,
            Message::Previous => Controls::Previous,
            Message::SetCurrentApplication(name) => {
                return match name {
                    Some(x) => GuiAction::Select(x),
                    None => {
                        self.current_application = None;
                        GuiAction::Nothing
                    },
                };
            },
            Message::SetCurrentHotkeys(hotkeys) => {
                self.current_hotkey = hotkeys;
                return GuiAction::Nothing;
            },
            Message::PrintValue(value) => {
                return GuiAction::Print(value);
            },
        };
        match &self.current_application {
            Some(x) => GuiAction::Control(x.clone(), control),
            None => GuiAction::NoApplication,
        }
    }

    /// The application `name` was found: it becomes the current one, with its
    /// status and bindings.
    pub fn select(&mut self, name: String, status: i32, hotkeys: Option<Vec<(Controls, Vec<Key>)>>)
        ensures
            final(self).current_application == Some(name),
            final(self).app_state == status,
            final(self).current_hotkey == hotkeys,
    {
        self.app_state = status;
        self.current_application = Some(name);
        self.current_hotkey = hotkeys;
    }

    /// The playback status code read back after a command.
    pub fn set_status(&mut self, status: i32)
        ensures
            final(self).app_state == status,
            final(self).current_application == old(self).current_application,
            final(self).current_hotkey == old(self).current_hotkey,
    {
        self.app_state = status;
    }
}

} // verus!
