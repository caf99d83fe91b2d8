//! Key events as the library reads them: the code of the key and whether it
//! was pressed, repeated or released.
use vstd::prelude::*;

verus! {

/// Which key an event is about. Keys that nothing here reacts to are `Other`.
#[derive(Clone, Copy, Debug, PartialEq, Eq, Structural)]
pub enum KeyCode {
    /// A key that types a character.
    Char(char),
    /// Deletes the character before the cursor.
    Backspace,
    /// The left arrow.
    Left,
    /// The right arrow.
    Right,
    /// The escape key.
    Esc,
    /// Any other key.
    Other,
}

/// What happened to the key.
#[derive(Clone, Copy, Debug, PartialEq, Eq, Structural)]
pub enum KeyEventKind {
    /// The key went down.
    Press,
    /// The key is held and the terminal repeats it.
    Repeat,
    /// The key came up.
    Release,
}

/// One key event of the input stream.
#[derive(Clone, Copy, Debug, PartialEq, Eq, Structural)]
pub struct KeyEvent {
    pub code: KeyCode,
    pub kind: KeyEventKind,
}

impl KeyEvent {
    /// An event with the given key code and kind.
    pub fn new(code: KeyCode, kind: KeyEventKind) -> (r: KeyEvent)
        ensures
            r.code == code,
            r.kind == kind,
    {
        KeyEvent { code, kind }
    }

    /// A key press of `code`.
    pub fn press(code: KeyCode) -> (r: KeyEvent)
        ensures
            r.code == code,
            r.kind == KeyEventKind::Press,
    {
        KeyEvent { code, kind: KeyEventKind::Press }
    }
}

} // verus!
