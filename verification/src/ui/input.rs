//! A single-line editable text buffer with a cursor.

use vstd::prelude::*;
use vstd::string::*;

verus! {

/// The buffer as a value: its characters and the cursor, counted in characters
/// from the start.
pub struct TextInputView {
    pub text: Seq<char>,
    pub cursor: int,
}

/// Text typed into an add or edit dialog.
///
/// The cursor is a number of characters, never more than the buffer holds.
#[derive(Debug)]
pub struct TextInput {
    value: String,
    cursor: usize,
}

impl View for TextInput {
    type V = TextInputView;

    closed spec fn view(&self) -> TextInputView {
        TextInputView { text: self.value@, cursor: self.cursor as int }
    }
}

impl TextInputView {
    /// The cursor lies inside the text or right behind it.
    pub open spec fn well_formed(self) -> bool {
        0 <= self.cursor <= self.text.len()
    }

    /// The empty buffer.
    pub open spec fn empty() -> TextInputView {
        TextInputView { text: Seq::empty(), cursor: 0 }
    }

    /// The buffer that holds `text`, with the cursor behind it.
    pub open spec fn holding(text: Seq<char>) -> TextInputView {
        TextInputView { text, cursor: text.len() as int }
    }

    /// `c` typed at the cursor. A buffer that already holds as many characters
    /// as can be counted takes no more.
    pub open spec fn insert(self, c: char) -> TextInputView {
        if self.text.len() < usize::MAX {
            TextInputView { text: self.text.insert(self.cursor, c), cursor: self.cursor + 1 }
        } else {
            self
        }
    }

    /// Backspace: the character before the cursor goes, if there is one.
    pub open spec fn delete_char(self) -> TextInputView {
        if self.cursor > 0 {
            TextInputView { text: self.text.remove(self.cursor - 1), cursor: self.cursor - 1 }
        } else {
            self
        }
    }

    /// Delete: the character at the cursor goes, if there is one.
    pub open spec fn delete_forward(self) -> TextInputView {
        if self.cursor < self.text.len() {
            TextInputView { text: self.text.remove(self.cursor), cursor: self.cursor }
        } else {
            self
        }
    }

    /// The cursor one character to the left, stopping at the start.
    pub open spec fn move_left(self) -> TextInputView {
        if self.cursor > 0 {
            TextInputView { text: self.text, cursor: self.cursor - 1 }
        } else {
            self
        }
    }

    /// The cursor one character to the right, stopping behind the text.
    pub open spec fn move_right(self) -> TextInputView {
        if self.cursor < self.text.len() {
            TextInputView { text: self.text, cursor: self.cursor + 1 }
        } else {
            self
        }
    }

    /// The cursor at the start.
    pub open spec fn move_start(self) -> TextInputView {
        TextInputView { text: self.text, cursor: 0 }
    }

    /// The cursor behind the text.
    pub open spec fn move_end(self) -> TextInputView {
        TextInputView { text: self.text, cursor: self.text.len() as int }
    }
}

impl TextInput {
    #[verifier::type_invariant]
    spec fn cursor_in_text(self) -> bool {
        self.cursor <= self.value@.len()
    }

    /// An empty buffer with the cursor at the start.
    pub fn new() -> (input: Self)
        ensures
            input@ == TextInputView::empty(),
    {
        TextInput { value: String::new(), cursor: 0 }
    }

    /// A buffer that holds `value`, with the cursor behind its last character.
    pub fn with_value(value: String) -> (input: Self)
        ensures
            input@ == TextInputView::holding(value@),
    {
        let cursor: usize = value.as_str().unicode_len();
        TextInput { value, cursor }
    }

    /// The text in the buffer.
    pub fn value(&self) -> (text: &String)
        ensures
            text@ == self@.text,
    {
        &self.value
    }

    /// The cursor, as a number of characters from the start.
    pub fn cursor(&self) -> (position: usize)
        ensures
            position == self@.cursor,
            self@.well_formed(),
    {
        proof {
            use_type_invariant(self);
        }
        self.cursor
    }

    /// Types `c` at the cursor and moves the cursor behind it.
    pub fn insert(&mut self, c: char)
        ensures
            final(self)@ == old(self)@.insert(c),
    {
        proof {
            use_type_invariant(&*self);
        }
        let len: usize = self.value.as_str().unicode_len();
        if len < usize::MAX {
            let mut text = String::from_str(self.value.as_str().substring_char(0, self.cursor));
            text.push(c);
            text.append(self.value.as_str().substring_char(self.cursor, len));
            assert(text@ =~= self.value@.insert(self.cursor as int, c));
            self.value = text;
            self.cursor = self.cursor + 1;
        }
    }

    /// Removes the character before the cursor and moves the cursor onto its place.
    pub fn delete_char(&mut self)
        ensures
            final(self)@ == old(self)@.delete_char(),
    {
        proof {
            use_type_invariant(&*self);
        }
        if self.cursor > 0 {
            let len: usize = self.value.as_str().unicode_len();
            let mut text = String::from_str(
                self.value.as_str().substring_char(0, self.cursor - 1),
            );
            text.append(self.value.as_str().substring_char(self.cursor, len));
            assert(text@ =~= self.value@.remove(self.cursor - 1));
            self.cursor = self.cursor - 1;
            self.value = text;
        }
    }

    /// Removes the character at the cursor.
    pub fn delete_forward(&mut self)
        ensures
            final(self)@ == old(self)@.delete_forward(),
    {
        proof {
            use_type_invariant(&*self);
        }
        let len: usize = self.value.as_str().unicode_len();
        if self.cursor < len {
            let mut text = String::from_str(self.value.as_str().substring_char(0, self.cursor));
            text.append(self.value.as_str().substring_char(self.cursor + 1, len));
            assert(text@ =~= self.value@.remove(self.cursor as int));
            self.value = text;
        }
    }

    /// Moves the cursor one character to the left.
    pub fn move_left(&mut self)
        ensures
            final(self)@ == old(self)@.move_left(),
    {
        proof {
            use_type_invariant(&*self);
        }
        if self.cursor > 0 {
            self.cursor = self.cursor - 1;
        }
    }

    /// Moves the cursor one character to the right.
    pub fn move_right(&mut self)
        ensures
            final(self)@ == old(self)@.move_right(),
    {
        let len: usize = self.value.as_str().unicode_len();
        if self.cursor < len {
            self.cursor = self.cursor + 1;
        }
    }

    /// Moves the cursor to the start.
    pub fn move_start(&mut self)
        ensures
            final(self)@ == old(self)@.move_start(),
    {
        self.cursor = 0;
    }

    /// Moves the cursor behind the last character.
    pub fn move_end(&mut self)
        ensures
            final(self)@ == old(self)@.move_end(),
    {
        self.cursor = self.value.as_str().unicode_len();
    }

    /// Empties the buffer.
    pub fn clear(&mut self)
        ensures
            final(self)@ == TextInputView::empty(),
    {
        self.cursor = 0;
        self.value = String::new();
    }
}

impl Clone for TextInput {
    fn clone(&self) -> (copy: Self)
        ensures
            copy@ == self@,
    {
        proof {
            use_type_invariant(self);
        }
        TextInput { value: self.value.clone(), cursor: self.cursor }
    }
}

impl Default for TextInput {
    fn default() -> (input: Self)
        ensures
            input@ == TextInputView::empty(),
    {
        TextInput::new()
    }
}

} // verus!
