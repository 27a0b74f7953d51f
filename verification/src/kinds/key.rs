use vstd::prelude::*;

verus! {

/// The keys the widgets react to; every other key is `Other`.
#[derive(Clone, Copy, Debug, PartialEq, Eq, Structural)]
pub enum KeyCode {
    Char(char),
    Backspace,
    Enter,
    Esc,
    Left,
    Right,
    Up,
    Down,
    Other,
}

/// A key press, as the widgets see it.
#[derive(Clone, Copy, Debug, PartialEq, Eq, Structural)]
pub struct KeyEvent {
    pub code: KeyCode,
}

impl KeyEvent {
    pub fn new(code: KeyCode) -> (res: Self)
        ensures
            res.code == code,
    {
        KeyEvent { code }
    }
}

} // verus!
