//! Window events, as far as the game loop tells them apart.

use vstd::prelude::*;

verus! {

/// A key, as far as the game loop tells keys apart.
#[derive(Clone, Copy, Debug, PartialEq, Eq, Structural)]
pub enum Key {
    Escape,
    Other,
}

/// An event of the window.
#[derive(Clone, Copy, Debug, PartialEq, Eq, Structural)]
pub enum InputEvent {
    /// The window is asked to close
    Quit,
    /// A key went down; `None` where the key has no keycode
    KeyDown(Option<Key>),
    /// Anything else
    Other,
}

/// Whether the game loop goes on.
#[derive(Clone, Copy, Debug, PartialEq, Eq, Structural)]
pub enum UpdateResult {
    Continue,
    Quit,
}

/// Quits on a quit event and on the escape key going down; goes on otherwise.
pub fn handle_event(ev: &InputEvent) -> (r: UpdateResult)
    ensures
        r == (if *ev == InputEvent::Quit || *ev == InputEvent::KeyDown(Some(Key::Escape)) {
            UpdateResult::Quit
        } else {
            UpdateResult::Continue
        }),
{
    match ev {
        InputEvent::Quit | InputEvent::KeyDown(Some(Key::Escape)) => UpdateResult::Quit,
        _ => UpdateResult::Continue,
    }
}

} // verus!
