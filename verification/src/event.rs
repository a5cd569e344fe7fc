//! The events the controller consumes: the periodic tick, normalised key
//! presses, and the terminal notices it deliberately leaves alone.
use vstd::prelude::*;

verus! {

/// A key, reduced to what the controller reacts to. `Char` carries a
/// printable ASCII byte; anything the controller ignores arrives as
/// `Other`.
#[derive(Clone, Copy, PartialEq, Eq, Structural, Debug)]
pub enum KeyCode {
    Char(u8),
    Up,
    Down,
    Left,
    Right,
    Enter,
    Backspace,
    Esc,
    Other,
}

/// A key press with its control-modifier flag.
#[derive(Clone, Copy, PartialEq, Eq, Structural, Debug)]
pub struct KeyEvent {
    pub code: KeyCode,
    pub ctrl: bool,
}

/// What kind of key report the terminal driver delivered. Some platforms
/// report a release beside every press; the controller must not handle a
/// keystroke twice.
#[derive(Clone, Copy, PartialEq, Eq, Structural, Debug)]
pub enum KeyKind {
    Press,
    Repeat,
    Release,
}

/// One event of the merged stream the controller drains.
#[derive(Clone, Copy, PartialEq, Eq, Structural, Debug)]
pub enum Event {
    Tick,
    Key(KeyEvent),
    Mouse,
    Resize(u16, u16),
}

/// The uniform key-report filter: a keystroke is handled on its press or
/// repeat report and never on its release.
pub fn accept_key_kind(kind: KeyKind) -> (r: bool)
    ensures
        r == (kind != KeyKind::Release),
{
    match kind {
        KeyKind::Press => true,
        KeyKind::Repeat => true,
        KeyKind::Release => false,
    }
}

} // verus!
