//! A single-line text buffer with a cursor that counts characters.

use crate::key::{KeyCode, KeyInput, KeyKind};
use vstd::prelude::*;
use vstd::utf8::*;

verus! {

/// What an [`InputState`] holds: the text, and where the cursor stands in it,
/// counted in characters.
pub struct InputView {
    pub content: Seq<char>,
    pub cursor: nat,
}

impl InputView {
    /// The cursor stands before a character of the text, or at its end.
    pub open spec fn wf(self) -> bool {
        self.cursor <= self.content.len()
    }

    /// The line with the cursor at its start.
    pub open spec fn at_start(self) -> InputView {
        InputView { content: self.content, cursor: 0 }
    }

    /// The line with the cursor at its end.
    pub open spec fn at_end(self) -> InputView {
        InputView { content: self.content, cursor: self.content.len() }
    }

    /// The line with the cursor one character to the left, unless it is at
    /// the start.
    pub open spec fn moved_left(self) -> InputView {
        InputView {
            content: self.content,
            cursor: if self.cursor > 0 { (self.cursor - 1) as nat } else { 0 },
        }
    }

    /// The line with the cursor one character to the right, unless it is at
    /// the end.
    pub open spec fn moved_right(self) -> InputView {
        InputView {
            content: self.content,
            cursor: if self.cursor < self.content.len() { self.cursor + 1 } else { self.cursor },
        }
    }

    /// `c` enters the text at the cursor, and the cursor steps over it.
    pub open spec fn with_char(self, c: char) -> InputView {
        InputView { content: self.content.insert(self.cursor as int, c), cursor: self.cursor + 1 }
    }

    /// The line after one keyboard event.
    pub open spec fn after_event(self, event: KeyInput) -> InputView {
        match event.code {
            KeyCode::Char(c) => if event.is_stroke() {
                self.with_char(c)
            } else {
                self
            },
            KeyCode::Backspace => self.without_char(),
            KeyCode::Left => self.moved_left(),
            KeyCode::Right => self.moved_right(),
            KeyCode::Home => self.at_start(),
            KeyCode::End => self.at_end(),
            _ => self,
        }
    }

    /// The character before the cursor leaves the text; at the start of the
    /// text nothing changes.
    pub open spec fn without_char(self) -> InputView {
        if self.cursor == 0 {
            self
        } else {
            InputView {
                content: self.content.remove(self.cursor - 1),
                cursor: (self.cursor - 1) as nat,
            }
        }
    }
}

/// A text's bytes with the bytes of `ch` put in at offset `at`.
pub open spec fn bytes_with_char_at(bytes: Seq<u8>, at: int, ch: char) -> Seq<u8> {
    bytes.subrange(0, at) + encode_utf8(seq![ch]) + bytes.subrange(at, bytes.len() as int)
}

/// `String::insert`: puts `ch` into the string at byte offset `at`. The
/// offset has to lie on a character boundary (the end of the string
/// included); the bytes before and after it stay as they are.
#[verifier::external_body]
fn string_insert(s: &mut String, at: usize, ch: char)
    requires
        is_char_boundary(encode_utf8(old(s)@), at as int),
    ensures
        encode_utf8(final(s)@) == bytes_with_char_at(encode_utf8(old(s)@), at as int, ch),
{
    s.insert(at, ch);
}

/// Encoding a concatenation is concatenating the encodings.
pub proof fn lemma_encode_concat(a: Seq<char>, b: Seq<char>)
    ensures
        encode_utf8(a + b) == encode_utf8(a) + encode_utf8(b),
    decreases a.len(),
{
    if a.len() == 0 {
        assert(a + b =~= b);
        assert(encode_utf8(a) =~= Seq::<u8>::empty());
        assert(encode_utf8(a) + encode_utf8(b) =~= encode_utf8(b));
    } else {
        lemma_encode_concat(a.drop_first(), b);
        assert((a + b).drop_first() =~= a.drop_first() + b);
        assert((a + b)[0] == a[0]);
        assert(encode_utf8(a + b) =~= encode_utf8(a) + encode_utf8(b));
    }
}

/// The encoding of a prefix ends on a character boundary of the whole.
pub proof fn lemma_prefix_is_boundary(a: Seq<char>, b: Seq<char>)
    ensures
        is_char_boundary(encode_utf8(a + b), encode_utf8(a).len() as int),
    decreases a.len(),
{
    let bytes = encode_utf8(a + b);
    encode_utf8_valid_utf8(a + b);
    if a.len() == 0 {
    } else {
        let whole = a + b;
        encode_utf8_first_scalar(whole);
        encode_utf8_first_scalar(a);
        lemma_encode_concat(a, b);
        assert(whole[0] == a[0]);
        assert(whole.drop_first() =~= a.drop_first() + b);
        assert(pop_first_scalar(bytes) =~= encode_utf8(whole.drop_first()));
        lemma_prefix_is_boundary(a.drop_first(), b);
        assert(encode_utf8(a).len() == encode_scalar(a[0] as u32).len() + encode_utf8(
            a.drop_first(),
        ).len());
    }
}

/// Puts `ch` into `s` before its character number `chars_before`, which
/// starts at byte offset `index`.
fn insert_at(s: &mut String, chars_before: usize, index: usize, ch: char)
    requires
        chars_before <= old(s)@.len(),
        index == encode_utf8(old(s)@.take(chars_before as int)).len(),
    ensures
        final(s)@ == old(s)@.insert(chars_before as int, ch),
{
    let ghost head = s@.take(chars_before as int);
    let ghost tail = s@.skip(chars_before as int);
    proof {
        assert(s@ =~= head + tail);
        lemma_prefix_is_boundary(head, tail);
        lemma_encode_concat(head, tail);
    }
    string_insert(s, index, ch);
    proof {
        let bytes = encode_utf8(head + tail);
        let grown = head + seq![ch] + tail;
        assert(bytes.subrange(0, index as int) =~= encode_utf8(head));
        assert(bytes.subrange(index as int, bytes.len() as int) =~= encode_utf8(tail));
        lemma_encode_concat(head, seq![ch]);
        lemma_encode_concat(head + seq![ch], tail);
        assert(encode_utf8(s@) == encode_utf8(grown));
        encode_utf8_decode_utf8(s@);
        encode_utf8_decode_utf8(grown);
        assert(grown =~= (head + tail).insert(chars_before as int, ch));
    }
}

/// A line of text under edit.
#[derive(Debug)]
pub struct InputState {
    /// The input buffer.
    buffer: String,
    /// Position of the cursor in the text, in characters (not bytes).
    cursor_pos: usize,
}

impl View for InputState {
    type V = InputView;

    closed spec fn view(&self) -> InputView {
        InputView { content: self.buffer@, cursor: self.cursor_pos as nat }
    }
}

impl InputState {
    /// The cursor stands before a character of the buffer, or at its end.
    #[verifier::type_invariant]
    spec fn cursor_in_text(&self) -> bool {
        self.cursor_pos <= self.buffer@.len()
    }

    /// An empty line, the cursor at its start.
    pub fn new() -> (r: InputState)
        ensures
            r@ == (InputView { content: Seq::<char>::empty(), cursor: 0 }),
            r@.wf(),
    {
        InputState { buffer: String::new(), cursor_pos: 0 }
    }

    /// The text of the line.
    pub fn text(&self) -> (r: &str)
        ensures
            r@ == self@.content,
    {
        self.buffer.as_str()
    }

    /// Where the cursor stands, in characters from the start of the text.
    pub fn position(&self) -> (r: usize)
        ensures
            r == self@.cursor,
            self@.wf(),
    {
        proof {
            use_type_invariant(self);
        }
        self.cursor_pos
    }

    /// Moves the cursor to the start of the input.
    pub fn reset_cursor(&mut self)
        ensures
            final(self)@ == old(self)@.at_start(),
            final(self)@.wf(),
    {
        self.cursor_pos = 0;
    }

    /// Moves the cursor to the end of the input.
    pub fn end_cursor(&mut self)
        ensures
            final(self)@ == old(self)@.at_end(),
            final(self)@.wf(),
    {
        self.cursor_pos = self.buffer.as_str().unicode_len();
    }

    /// Moves the cursor left by one character in the input.
    pub fn move_cursor_left(&mut self)
        ensures
            final(self)@ == old(self)@.moved_left(),
            final(self)@.wf(),
    {
        proof {
            use_type_invariant(&*self);
        }
        if self.cursor_pos > 0 {
            self.cursor_pos = self.cursor_pos - 1;
        }
    }

    /// Moves the cursor right by one character in the input.
    pub fn move_cursor_right(&mut self)
        ensures
            final(self)@ == old(self)@.moved_right(),
            final(self)@.wf(),
    {
        proof {
            use_type_invariant(&*self);
        }
        let len = self.buffer.as_str().unicode_len();
        if self.cursor_pos < len {
            self.cursor_pos = self.cursor_pos + 1;
        }
    }

    /// The byte offset in the buffer at which the cursor stands.
    ///
    /// A character may take several bytes, so the offset is the length of
    /// the encoding of the text before the cursor.
    pub fn byte_index(&self) -> (r: usize)
        ensures
            self@.wf(),
            r == encode_utf8(self@.content.take(self@.cursor as int)).len(),
    {
        proof {
            use_type_invariant(self);
        }
        let before = self.buffer.as_str().substring_char(0, self.cursor_pos);
        assert(before@ == self.buffer@.take(self.cursor_pos as int));
        before.as_bytes().len()
    }

    /// Puts `new_char` into the text at the cursor and moves the cursor
    /// behind it.
    pub fn add_char(&mut self, new_char: char)
        ensures
            final(self)@ == old(self)@.with_char(new_char),
            final(self)@.wf(),
    {
        proof {
            use_type_invariant(&*self);
        }
        let index = self.byte_index();
        // The character goes into a copy: the buffer itself is never lent
        // out for writing, so the cursor is inside it at every moment.
        let mut grown = self.buffer.clone();
        insert_at(&mut grown, self.cursor_pos, index, new_char);
        self.buffer = grown;
        self.move_cursor_right();
    }

    /// Deletes the character before the cursor, if there is one, and moves
    /// the cursor back over its place.
    pub fn delete_char(&mut self)
        ensures
            final(self)@ == old(self)@.without_char(),
            final(self)@.wf(),
    {
        proof {
            use_type_invariant(&*self);
        }
        if self.cursor_pos == 0 {
            return ;
        }
        let current_index = self.cursor_pos;
        let text = self.buffer.as_str();
        let len = text.unicode_len();
        // Everything but the character before the cursor, put together again.
        let mut rebuilt = text.substring_char(0, current_index - 1).to_owned();
        rebuilt.append(text.substring_char(current_index, len));
        assert(rebuilt@ == self.buffer@.remove(current_index - 1));
        self.cursor_pos = current_index - 1;
        self.buffer = rebuilt;
    }

    /// Edits the line as `event` asks: a typed character enters the text,
    /// backspace deletes, the arrow keys and Home and End move the cursor.
    /// Any other event leaves the line as it is.
    pub fn handle_event(&mut self, event: KeyInput)
        ensures
            final(self)@ == old(self)@.after_event(event),
            final(self)@.wf(),
    {
        proof {
            use_type_invariant(&*self);
        }
        match event.code {
            KeyCode::Char(c) => {
                match event.kind {
                    KeyKind::Press | KeyKind::Repeat => self.add_char(c),
                    KeyKind::Release => {},
                }
            },
            KeyCode::Backspace => self.delete_char(),
            KeyCode::Left => self.move_cursor_left(),
            KeyCode::Right => self.move_cursor_right(),
            KeyCode::Home => self.reset_cursor(),
            KeyCode::End => self.end_cursor(),
            _ => {},
        }
    }
}

/// Whatever the key, the cursor of a line stays inside its text.
pub proof fn lemma_cursor_stays_in_text(line: InputView, event: KeyInput)
    requires
        line.wf(),
    ensures
        line.after_event(event).wf(),
{
}

/// Deleting the character that was just typed gives back the line as it
/// was.
pub proof fn lemma_delete_undoes_insert(line: InputView, c: char)
    requires
        line.wf(),
    ensures
        line.with_char(c).without_char() == line,
{
    assert(line.content.insert(line.cursor as int, c).remove(line.cursor as int)
        =~= line.content);
}

impl Default for InputState {
    /// An empty line, the cursor at its start.
    fn default() -> (r: InputState)
        ensures
            r@ == (InputView { content: Seq::<char>::empty(), cursor: 0 }),
    {
        InputState::new()
    }
}

impl PartialEq for InputState {
    /// Two lines are equal if they hold the same text with the cursor at
    /// the same place.
    fn eq(&self, other: &InputState) -> (r: bool) {
        self.buffer == other.buffer && self.cursor_pos == other.cursor_pos
    }
}

impl vstd::std_specs::cmp::PartialEqSpecImpl for InputState {
    open spec fn obeys_eq_spec() -> bool {
        true
    }

    open spec fn eq_spec(&self, other: &InputState) -> bool {
        self@ == other@
    }
}

impl Eq for InputState {

}

} // verus!
