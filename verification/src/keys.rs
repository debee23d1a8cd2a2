use vstd::prelude::*;

verus! {

/// The key that was pressed, as the interaction logic reads it.
#[derive(Clone, Copy, Debug, PartialEq, Eq, Structural)]
pub enum KeyCode {
    Backspace,
    Enter,
    Left,
    Right,
    Up,
    Down,
    Home,
    End,
    Tab,
    BackTab,
    Esc,
    /// A function key, `F(1)` to `F(12)` and beyond.
    F(u8),
    Char(char),
    /// Any key that no handler of the interface reacts to.
    Other,
}

/// A key press: the key and whether Control was held.
#[derive(Clone, Copy, Debug, PartialEq, Eq, Structural)]
pub struct KeyEvent {
    pub code: KeyCode,
    pub ctrl: bool,
}

impl KeyEvent {
    /// A key press without modifiers.
    pub fn plain(code: KeyCode) -> (k: KeyEvent)
        ensures
            k.code == code,
            !k.ctrl,
    {
        KeyEvent { code, ctrl: false }
    }

    /// A key press with Control held.
    pub fn with_ctrl(code: KeyCode) -> (k: KeyEvent)
        ensures
            k.code == code,
            k.ctrl,
    {
        KeyEvent { code, ctrl: true }
    }
}

} // verus!
