//! Raw input, as the host receives it.
use vstd::prelude::*;
use crate::click::Button;

verus! {

/// A key of the keyboard.
#[derive(Debug)]
pub enum Key {
    Escape,
    Backspace,
    Space,
    /// Any other named key.
    Named,
    /// A key that produces text.
    Character(String),
    /// A key that the host could not identify.
    Unidentified,
}

/// An input event.
#[derive(Debug)]
pub enum Event {
    ButtonPressed(Button),
    ButtonReleased(Button),
    CursorMoved,
    KeyPressed(Key),
    /// Any other event.
    Other,
}

} // verus!
