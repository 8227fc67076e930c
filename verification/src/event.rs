//! The abstracted key events the core consumes: a key code, a control
//! modifier flag and the event kind. The terminal layer translates
//! its raw events into these plain values.

use vstd::prelude::*;

verus! {

/// The keys the core distinguishes; anything else arrives as `Other`.
#[derive(Clone, Copy, Debug, PartialEq, Eq, Structural)]
pub enum KeyCode {
    Char(char),
    Tab,
    BackTab,
    Enter,
    Backspace,
    Esc,
    Up,
    Down,
    Left,
    Right,
    Other,
}

/// How a key event came about. Release events are not state-changing
/// and are filtered before they reach the form state machines.
#[derive(Clone, Copy, Debug, PartialEq, Eq, Structural)]
pub enum KeyEventKind {
    Press,
    Repeat,
    Release,
}

/// One abstracted key event.
#[derive(Clone, Copy, Debug, PartialEq, Eq, Structural)]
pub struct KeyEvent {
    pub code: KeyCode,
    pub ctrl: bool,
    pub kind: KeyEventKind,
}

impl KeyEvent {
    /// A plain key press without modifiers.
    pub fn press(code: KeyCode) -> (e: KeyEvent)
        ensures
            e == (KeyEvent { code, ctrl: false, kind: KeyEventKind::Press }),
    {
        KeyEvent { code, ctrl: false, kind: KeyEventKind::Press }
    }
}

} // verus!
