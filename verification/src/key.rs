//! Keyboard input as the library reads it.

use vstd::prelude::*;

verus! {

/// The key that an event is about.
#[derive(Clone, Copy, Debug, PartialEq, Eq, Structural)]
pub enum KeyCode {
    /// A character key.
    Char(char),
    Backspace,
    Enter,
    Left,
    Right,
    Up,
    Down,
    Home,
    End,
    PageUp,
    PageDown,
    /// Any key that the library gives no meaning to.
    Other,
}

/// What happened to the key.
#[derive(Clone, Copy, Debug, PartialEq, Eq, Structural)]
pub enum KeyKind {
    Press,
    Repeat,
    Release,
}

/// One keyboard event.
#[derive(Clone, Copy, Debug, PartialEq, Eq, Structural)]
pub struct KeyInput {
    pub code: KeyCode,
    pub kind: KeyKind,
    /// Whether the control modifier was held.
    pub ctrl: bool,
}

impl KeyInput {
    /// The key went down, or is held down and repeats.
    pub open spec fn is_stroke(self) -> bool {
        self.kind == KeyKind::Press || self.kind == KeyKind::Repeat
    }

    /// A plain press of `code`, without modifiers.
    pub fn press(code: KeyCode) -> (r: KeyInput)
        ensures
            r == (KeyInput { code, kind: KeyKind::Press, ctrl: false }),
    {
        KeyInput { code, kind: KeyKind::Press, ctrl: false }
    }
}

} // verus!
