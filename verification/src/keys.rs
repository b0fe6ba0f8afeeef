//! Keyboard handling of the terminal dashboard: which key presses quit.

use vstd::prelude::*;

verus! {

/// Modifier bit of the Control key in a key event's modifier set.
pub const MOD_CONTROL: u8 = 0b0000_0010;

/// The key of a key event, as far as the dashboard distinguishes keys.
#[derive(Clone, Copy, Debug, PartialEq, Eq, Structural)]
pub enum KeyCode {
    /// A character key.
    Char(char),
    /// The Escape key.
    Esc,
    /// Any other key.
    Other,
}

/// A key event: the key and the bit set of held modifiers (Shift = 1,
/// Control = 2, Alt = 4, Super = 8, Hyper = 16, Meta = 32).
#[derive(Clone, Copy, Debug, PartialEq, Eq, Structural)]
pub struct KeyEvent {
    /// The key.
    pub code: KeyCode,
    /// Held modifiers.
    pub modifiers: u8,
}

/// A terminal event.
#[derive(Clone, Copy, Debug, PartialEq, Eq, Structural)]
pub enum TermEvent {
    /// A key event.
    Key(KeyEvent),
    /// Any non-key event (resize, mouse, focus, paste).
    Other,
}

impl KeyEvent {
    /// A key event for `code` with the modifier set `modifiers`.
    pub fn new(code: KeyCode, modifiers: u8) -> (e: Self)
        ensures
            e.code == code,
            e.modifiers == modifiers,
    {
        KeyEvent { code, modifiers }
    }
}

/// Whether an event quits: `q` or Esc with any modifiers, or `c` with exactly
/// the Control modifier.
pub open spec fn should_quit_spec(ev: TermEvent) -> bool {
    match ev {
        TermEvent::Key(k) => match k.code {
            KeyCode::Char(c) => c == 'q' || (c == 'c' && k.modifiers == MOD_CONTROL),
            KeyCode::Esc => true,
            KeyCode::Other => false,
        },
        TermEvent::Other => false,
    }
}

/// Quit on `q`, Esc, or Ctrl-C.
pub fn should_quit(ev: &TermEvent) -> (b: bool)
    ensures
        b == should_quit_spec(*ev),
{
    match ev {
        TermEvent::Key(k) => match k.code {
            KeyCode::Char(c) => c == 'q' || (c == 'c' && k.modifiers == MOD_CONTROL),
            KeyCode::Esc => true,
            KeyCode::Other => false,
        },
        TermEvent::Other => false,
    }
}

} // verus!
