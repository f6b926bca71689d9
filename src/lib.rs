//! Global media hotkeys: key chords held on the keyboard fire media-transport
//! actions on a chosen application.
//!
//! `keys` translates virtual-key codes, `pressed` tracks the keys held,
//! `watcher` holds the chord watchers and decides on each hook event,
//! `store` and `listener` keep the media bindings and their watchers in step,
//! and `gui` holds the front end's state and decisions.

pub mod text;
pub mod keys;
pub mod controls;
pub mod pressed;
pub mod watcher;
pub mod store;
pub mod listener;
pub mod gui;
