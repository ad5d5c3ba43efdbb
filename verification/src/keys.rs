//! Key presses.

use vstd::prelude::*;

verus! {

/// A key.
#[derive(Debug, Clone, Copy, PartialEq, Eq, Structural)]
pub enum KeyCode {
    Char(char),
    Enter,
    Esc,
    Tab,
    /// Shift and Tab.
    BackTab,
    Backspace,
    Up,
    Down,
    PageUp,
    PageDown,
    Home,
    End,
    /// Any other key.
    Other,
}

/// The modifiers held down with a key.
#[derive(Debug, Clone, Copy, PartialEq, Eq, Structural)]
pub enum Modifiers {
    /// No modifier.
    Plain,
    /// Ctrl and nothing else.
    Control,
    /// Any other combination.
    Other,
}

/// A key event.
#[derive(Debug, Clone, Copy, PartialEq, Eq, Structural)]
pub struct KeyEvent {
    pub code: KeyCode,
    pub modifiers: Modifiers,
    /// Whether the key went down; it may also repeat or be released.
    pub pressed: bool,
}

/// Whether the key is Ctrl+C.
#[verifier::allow_in_spec]
pub fn is_interrupt(key: KeyEvent) -> bool
    returns
        key.code == KeyCode::Char('c') && key.modifiers == Modifiers::Control,
{
    key.code == KeyCode::Char('c') && key.modifiers == Modifiers::Control
}

/// Whether the key is a plain `q` or Ctrl+C.
#[verifier::allow_in_spec]
pub fn is_quit(key: KeyEvent) -> bool
    returns
        (key.code == KeyCode::Char('q') && key.modifiers == Modifiers::Plain) || (key.code
            == KeyCode::Char('c') && key.modifiers == Modifiers::Control),
{
    (key.code == KeyCode::Char('q') && key.modifiers == Modifiers::Plain) || is_interrupt(key)
}

} // verus!
