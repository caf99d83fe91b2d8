//! A single-line text field: a buffer of characters, a cursor between them
//! and a focus flag. Edits apply only while the field has focus.
use vstd::prelude::*;

use crate::keys::{KeyCode, KeyEvent};

verus! {

/// The glyph drawn at the cursor's place while the field has focus.
pub const CURSOR_MARKER: char = '\u{2502}';

/// What a text field holds: its characters, the cursor as a character
/// offset, and whether it has focus.
pub struct InputModel {
    pub value: Seq<char>,
    pub cursor: nat,
    pub focused: bool,
}

impl InputModel {
    /// The cursor is a valid insertion point.
    pub open spec fn wf(self) -> bool {
        self.cursor <= self.value.len()
    }

    /// The empty, unfocused field.
    pub open spec fn empty() -> InputModel {
        InputModel { value: Seq::empty(), cursor: 0, focused: false }
    }

    /// `c` typed at the cursor: it goes in before the cursor, which moves past it.
    pub open spec fn insert(self, c: char) -> InputModel {
        if !self.focused {
            self
        } else {
            InputModel {
                value: self.value.insert(self.cursor as int, c),
                cursor: self.cursor + 1,
                ..self
            }
        }
    }

    /// Backspace: the character before the cursor goes, and the cursor with it.
    pub open spec fn delete_before_cursor(self) -> InputModel {
        if !self.focused || self.cursor == 0 {
            self
        } else {
            InputModel {
                value: self.value.remove(self.cursor - 1),
                cursor: (self.cursor - 1) as nat,
                ..self
            }
        }
    }

    /// The cursor one character to the left, stopping at the start.
    pub open spec fn move_left(self) -> InputModel {
        if !self.focused || self.cursor == 0 {
            self
        } else {
            InputModel { cursor: (self.cursor - 1) as nat, ..self }
        }
    }

    /// The cursor one character to the right, stopping at the end.
    pub open spec fn move_right(self) -> InputModel {
        if !self.focused || self.cursor >= self.value.len() {
            self
        } else {
            InputModel { cursor: self.cursor + 1, ..self }
        }
    }

    /// The same field with focus set to `focused`.
    pub open spec fn with_focus(self, focused: bool) -> InputModel {
        InputModel { focused, ..self }
    }

    /// The field after it has handled a key.
    pub open spec fn apply_key(self, code: KeyCode) -> InputModel {
        match code {
            KeyCode::Char(c) => self.insert(c),
            KeyCode::Backspace => self.delete_before_cursor(),
            KeyCode::Left => self.move_left(),
            KeyCode::Right => self.move_right(),
            _ => self,
        }
    }

    /// The field after it has handled `keys`, first to last.
    pub open spec fn apply_keys(self, keys: Seq<KeyCode>) -> InputModel
        decreases keys.len(),
    {
        if keys.len() == 0 {
            self
        } else {
            self.apply_key(keys[0]).apply_keys(keys.drop_first())
        }
    }

    /// What the field shows: with focus, the buffer with the cursor marker at
    /// the cursor; without, the buffer alone.
    pub open spec fn display(self) -> Seq<char> {
        if self.focused {
            self.value.insert(self.cursor as int, CURSOR_MARKER)
        } else {
            self.value
        }
    }
}

/// Every key keeps the cursor a valid insertion point.
pub proof fn lemma_key_keeps_cursor_in_bounds(m: InputModel, code: KeyCode)
    requires
        m.wf(),
    ensures
        m.apply_key(code).wf(),
{
}

/// After any sequence of edits and moves, from any valid state (the empty
/// buffer included), the cursor lies between zero and the buffer's length.
pub proof fn lemma_cursor_stays_in_bounds(m: InputModel, keys: Seq<KeyCode>)
    requires
        m.wf(),
    ensures
        m.apply_keys(keys).wf(),
    decreases keys.len(),
{
    if keys.len() > 0 {
        lemma_key_keeps_cursor_in_bounds(m, keys[0]);
        lemma_cursor_stays_in_bounds(m.apply_key(keys[0]), keys.drop_first());
    }
}

/// Moving left at the start, moving right at the end, and deleting at the
/// start all leave the field as it was.
pub proof fn lemma_edge_operations_are_no_ops(m: InputModel)
    requires
        m.wf(),
    ensures
        m.cursor == 0 ==> m.move_left() == m,
        m.cursor == m.value.len() ==> m.move_right() == m,
        m.cursor == 0 ==> m.delete_before_cursor() == m,
{
}

/// Typing a character and then deleting the one before the cursor gives back
/// the buffer and cursor from before.
pub proof fn lemma_insert_then_delete(m: InputModel, c: char)
    requires
        m.wf(),
        m.focused,
    ensures
        m.insert(c).delete_before_cursor() == m,
{
    let n = m.insert(c).delete_before_cursor();
    assert(n.value =~= m.value);
}

/// Without focus, no sequence of keys changes the buffer or the cursor.
pub proof fn lemma_unfocused_field_ignores_edits(m: InputModel, keys: Seq<KeyCode>)
    requires
        !m.focused,
    ensures
        m.apply_keys(keys) == m,
    decreases keys.len(),
{
    if keys.len() > 0 {
        lemma_unfocused_field_ignores_edits(m.apply_key(keys[0]), keys.drop_first());
    }
}

/// A single-line text field.
pub struct TextInput {
    value: Vec<char>,
    cursor: usize,
    focused: bool,
}

impl View for TextInput {
    type V = InputModel;

    closed spec fn view(&self) -> InputModel {
        InputModel { value: self.value@, cursor: self.cursor as nat, focused: self.focused }
    }
}

impl TextInput {
    /// An empty field without focus.
    pub fn new() -> (r: TextInput)
        ensures
            r@ == InputModel::empty(),
            r@.wf(),
    {
        let r = TextInput { value: Vec::new(), cursor: 0, focused: false };
        assert(r@.value =~= Seq::<char>::empty());
        r
    }

    /// The characters of the buffer.
    pub fn value(&self) -> (r: &Vec<char>)
        ensures
            r@ == self@.value,
    {
        &self.value
    }

    /// The cursor, as a character offset into the buffer.
    pub fn cursor(&self) -> (r: usize)
        ensures
            r == self@.cursor,
    {
        self.cursor
    }

    /// Whether the field has focus.
    pub fn is_focused(&self) -> (r: bool)
        ensures
            r == self@.focused,
    {
        self.focused
    }

    /// Gives or takes focus; the buffer and cursor stay as they are.
    pub fn set_focus(&mut self, focused: bool)
        requires
            old(self)@.wf(),
        ensures
            final(self)@ == old(self)@.with_focus(focused),
            final(self)@.wf(),
    {
        self.focused = focused;
    }

    /// With focus, inserts `c` at the cursor and moves the cursor past it.
    pub fn insert(&mut self, c: char)
        requires
            old(self)@.wf(),
        ensures
            final(self)@ == old(self)@.insert(c),
            final(self)@.wf(),
    {
        if self.focused {
            self.value.insert(self.cursor, c);
            let len: usize = self.value.len();
            assert(self.cursor < len);
            self.cursor = self.cursor + 1;
        }
    }

    /// With focus and the cursor past the start, removes the character before
    /// the cursor and moves the cursor back by one.
    pub fn delete_before_cursor(&mut self)
        requires
            old(self)@.wf(),
        ensures
            final(self)@ == old(self)@.delete_before_cursor(),
            final(self)@.wf(),
    {
        if self.focused && self.cursor > 0 {
            self.cursor = self.cursor - 1;
            self.value.remove(self.cursor);
        }
    }

    /// With focus, moves the cursor one character left, stopping at the start.
    pub fn move_left(&mut self)
        requires
            old(self)@.wf(),
        ensures
            final(self)@ == old(self)@.move_left(),
            final(self)@.wf(),
    {
        if self.focused {
            self.cursor = self.cursor.saturating_sub(1);
        }
    }

    /// With focus, moves the cursor one character right, stopping at the end.
    pub fn move_right(&mut self)
        requires
            old(self)@.wf(),
        ensures
            final(self)@ == old(self)@.move_right(),
            final(self)@.wf(),
    {
        if self.focused && self.cursor < self.value.len() {
            self.cursor = self.cursor + 1;
        }
    }

    /// Handles one key: a character is typed, backspace deletes, the arrows
    /// move the cursor, and any other key is ignored. Without focus nothing
    /// changes.
    pub fn handle_event(&mut self, key: KeyEvent)
        requires
            old(self)@.wf(),
        ensures
            final(self)@ == old(self)@.apply_key(key.code),
            final(self)@.wf(),
    {
        if !self.focused {
            return;
        }
        match key.code {
            KeyCode::Char(c) => self.insert(c),
            KeyCode::Backspace => self.delete_before_cursor(),
            KeyCode::Left => self.move_left(),
            KeyCode::Right => self.move_right(),
            _ => {},
        }
    }

    /// The text to show: with focus, the buffer with `CURSOR_MARKER` at the
    /// cursor; without, the buffer alone. Nothing is changed.
    pub fn display_text(&self) -> (r: Vec<char>)
        requires
            self@.wf(),
        ensures
            r@ == self@.display(),
    {
        let mut text: Vec<char> = Vec::new();
        let n: usize = self.value.len();
        let mut i: usize = 0;
        while i < n
            invariant
                n == self.value@.len(),
                i <= n,
                self.cursor <= n,
                text@ == if self.focused && self.cursor < i {
                    self.value@.take(i as int).insert(self.cursor as int, CURSOR_MARKER)
                } else {
                    self.value@.take(i as int)
                },
            decreases n - i,
        {
            if self.focused && i == self.cursor {
                text.push(CURSOR_MARKER);
            }
            text.push(self.value[i]);
            i = i + 1;
            assert(self.value@.take(i as int) =~= self.value@.take(i - 1).push(self.value@[i - 1]));
        }
        if self.focused && self.cursor == n {
            text.push(CURSOR_MARKER);
        }
        assert(self.value@.take(n as int) =~= self.value@);
        text
    }
}

} // verus!
