//! Key presses as the UI logic sees them.

use vstd::prelude::*;

verus! {

/// The key of a key press.
#[derive(Debug, Clone, Copy, PartialEq, Eq, Structural)]
pub enum KeyCode {
    /// A printable (or control) character.
    Char(char),
    Enter,
    Esc,
    Backspace,
    Tab,
    /// Shift+Tab.
    BackTab,
    Up,
    Down,
    Left,
    Right,
    /// Any key no screen binds (function keys, Home, Delete, …).
    Other,
}

/// A key press.
#[derive(Debug, Clone, Copy, PartialEq, Eq, Structural)]
pub struct KeyEvent {
    pub code: KeyCode,
}

impl KeyEvent {
    /// A press of `code`.
    pub fn new(code: KeyCode) -> (k: KeyEvent)
        ensures
            k.code == code,
    {
        KeyEvent { code }
    }
}

/// `y` or Enter: confirm.
pub open spec fn is_confirm_key(k: KeyCode) -> bool {
    k == KeyCode::Char('y') || k == KeyCode::Enter
}

/// `n` or Esc: cancel.
pub open spec fn is_cancel_key(k: KeyCode) -> bool {
    k == KeyCode::Char('n') || k == KeyCode::Esc
}

/// Enter or Esc: close a finished modal.
pub open spec fn is_close_key(k: KeyCode) -> bool {
    k == KeyCode::Enter || k == KeyCode::Esc
}

} // verus!
