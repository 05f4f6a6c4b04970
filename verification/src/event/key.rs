//! The keys that the interface tells apart.

use vstd::prelude::*;

verus! {

/// A key press.
#[derive(Clone, Copy, Debug, PartialEq, Eq, Structural)]
pub enum Key {
    Enter,
    Tab,
    Backspace,
    Esc,
    Left,
    Right,
    Up,
    Down,
    Ins,
    Delete,
    Home,
    End,
    PageUp,
    PageDown,
    /// A character key.
    Char(char),
    /// A character key pressed together with Alt.
    Alt(char),
    /// A character key pressed together with Ctrl.
    Ctrl(char),
    /// Any other key.
    Unknown,
}

} // verus!
