//! Media-transport actions and their canonical names.

use vstd::prelude::*;

verus! {

/// A transport command sent to a media session.
#[derive(Clone, Copy, Debug, PartialEq, Eq, Structural, Hash)]
pub enum Controls {
    Pause,
    Play,
    Stop,
    Next,
    Previous,
}

/// What a media session reports about its playback.
#[derive(Clone, Copy, Debug, PartialEq, Eq, Structural, Hash)]
pub enum Status {
    PlayState,
}

/// The outcome of a media task: a value or an error.
pub enum TaskError<T, E> {
    Done(T),
    Failed(E),
}

/// The canonical name of an action: its variant name.
pub open spec fn control_name(c: Controls) -> Seq<char> {
    match c {
        Controls::Pause => "Pause"@,
        Controls::Play => "Play"@,
        Controls::Stop => "Stop"@,
        Controls::Next => "Next"@,
        Controls::Previous => "Previous"@,
    }
}

impl Controls {
    /// The canonical name of this action.
    pub fn to_string(&self) -> (r: String)
        ensures
            r@ == control_name(*self),
    {
        match self {
            Controls::Pause => "Pause".to_owned(),
            Controls::Play => "Play".to_owned(),
            Controls::Stop => "Stop".to_owned(),
            Controls::Next => "Next".to_owned(),
            Controls::Previous => "Previous".to_owned(),
        }
    }

    /// Parses a canonical action name; any other text is refused.
    pub fn from_str(s: &str) -> (r: Result<Controls, ()>)
        ensures
            r matches Ok(c) ==> control_name(c) == s@,
            r is Err ==> forall|c: Controls| control_name(c) != s@,
    {
        let t = s.to_owned();
        if t == "Pause".to_owned() {
            Ok(Controls::Pause)
        } else if t == "Play".to_owned() {
            Ok(Controls::Play)
        } else if t == "Stop".to_owned() {
            Ok(Controls::Stop)
        } else if t == "Next".to_owned() {
            Ok(Controls::Next)
        } else if t == "Previous".to_owned() {
            Ok(Controls::Previous)
        } else {
            assert forall|c: Controls| control_name(c) != s@ by {
                match c {
                    Controls::Pause => {},
                    Controls::Play => {},
                    Controls::Stop => {},
                    Controls::Next => {},
                    Controls::Previous => {},
                }
            }
            Err(())
        }
    }
}

/// Distinct actions have distinct names: by the contract of `from_str`, parsing
/// the name that `to_string` writes gives back the same action.
pub proof fn lemma_control_name_injective(a: Controls, b: Controls)
    ensures
        control_name(a) == control_name(b) ==> a == b,
{
    reveal_strlit("Pause");
    reveal_strlit("Play");
    reveal_strlit("Stop");
    reveal_strlit("Next");
    reveal_strlit("Previous");
    if control_name(a) == control_name(b) {
        assert(control_name(a).len() == control_name(b).len());
        assert(control_name(a)[0] == control_name(b)[0]);
        assert(control_name(a)[1] == control_name(b)[1]);
    }
}

} // verus!
