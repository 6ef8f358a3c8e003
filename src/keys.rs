use vstd::prelude::*;

verus! {

/// Modifier bits of a key chord.
pub const SHIFT: u8 = 1;
pub const CONTROL: u8 = 2;
pub const ALT: u8 = 4;

/// The key that was pressed, without its modifiers.
#[derive(Clone, Copy, Debug, PartialEq, Eq, Structural)]
pub enum KeyCode {
    Char(char),
    F(u8),
    Enter,
    Tab,
    BackTab,
    Backspace,
    Esc,
    Up,
    Down,
    Left,
    Right,
    PageUp,
    PageDown,
    Home,
    End,
    Delete,
    Insert,
}

/// A key chord: a key code and a mask of modifier bits.
#[derive(Clone, Copy, Debug, PartialEq, Eq, Structural)]
pub struct KeyChord {
    pub code: KeyCode,
    pub modifiers: u8,
}

/// A chord of the given key and modifiers.
pub fn chord(code: KeyCode, modifiers: u8) -> (r: KeyChord)
    ensures
        r == (KeyChord { code, modifiers }),
{
    KeyChord { code, modifiers }
}

/// Alt and Enter.
pub fn alt_enter() -> (r: KeyChord)
    ensures
        r == (KeyChord { code: KeyCode::Enter, modifiers: ALT }),
{
    chord(KeyCode::Enter, ALT)
}

/// A key pressed with no modifier.
pub fn plain(code: KeyCode) -> (r: KeyChord)
    ensures
        r == (KeyChord { code, modifiers: 0 }),
{
    chord(code, 0)
}

/// Shift and Tab, as terminals report it.
pub fn back_tab() -> (r: KeyChord)
    ensures
        r == (KeyChord { code: KeyCode::BackTab, modifiers: SHIFT }),
{
    chord(KeyCode::BackTab, SHIFT)
}

} // verus!
