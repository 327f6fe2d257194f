//! An ordered character buffer with an insertion cursor.
//!
//! Within a frame the cursor may leave `0..=len` through arrow moves; it is
//! brought back by `clamp_cursor` at the end of the frame. Edits whose cursor
//! is out of range at the time they are applied leave the buffer unchanged.

use vstd::prelude::*;

verus! {

/// The abstract state of a [`TextBuffer`]: its characters and its cursor.
pub ghost struct BufferModel {
    pub text: Seq<char>,
    pub cursor: int,
}

/// One edit that a key press may request.
#[derive(Clone, Copy, Debug, PartialEq, Eq, Structural)]
pub enum Edit {
    Insert(char),
    DeleteBefore,
    CursorLeft,
    CursorRight,
    Nothing,
}

/// Inserting `c` at the cursor and moving past it; allowed when the cursor
/// lies in `0..=len` and the buffer is below the largest length a cursor can address.
pub open spec fn inserted(m: BufferModel, c: char) -> BufferModel {
    if 0 <= m.cursor <= m.text.len() && m.text.len() < i64::MAX {
        BufferModel { text: m.text.insert(m.cursor, c), cursor: m.cursor + 1 }
    } else {
        m
    }
}

/// Removing the character just before the cursor and stepping back onto its
/// place; a no-op when the cursor is at zero or out of range.
pub open spec fn deleted(m: BufferModel) -> BufferModel {
    if 1 <= m.cursor <= m.text.len() {
        BufferModel { text: m.text.remove(m.cursor - 1), cursor: m.cursor - 1 }
    } else {
        m
    }
}

/// The cursor one step to the left, without clamping to the text.
pub open spec fn moved_left(m: BufferModel) -> BufferModel {
    if m.cursor > i64::MIN {
        BufferModel { cursor: m.cursor - 1, ..m }
    } else {
        m
    }
}

/// The cursor one step to the right, without clamping to the text.
pub open spec fn moved_right(m: BufferModel) -> BufferModel {
    if m.cursor < i64::MAX {
        BufferModel { cursor: m.cursor + 1, ..m }
    } else {
        m
    }
}

/// The cursor brought into `0..=len`.
pub open spec fn clamped(m: BufferModel) -> BufferModel {
    if m.cursor < 0 {
        BufferModel { cursor: 0, ..m }
    } else if m.cursor > m.text.len() {
        BufferModel { cursor: m.text.len() as int, ..m }
    } else {
        m
    }
}

/// The effect of one edit.
pub open spec fn applied(m: BufferModel, e: Edit) -> BufferModel {
    match e {
        Edit::Insert(c) => inserted(m, c),
        Edit::DeleteBefore => deleted(m),
        Edit::CursorLeft => moved_left(m),
        Edit::CursorRight => moved_right(m),
        Edit::Nothing => m,
    }
}

/// The effect of a sequence of edits, applied in order.
pub open spec fn applied_all(m: BufferModel, edits: Seq<Edit>) -> BufferModel
    decreases edits.len(),
{
    if edits.len() == 0 {
        m
    } else {
        applied(applied_all(m, edits.drop_last()), edits.last())
    }
}

/// The cursor lies within the text.
pub open spec fn settled(m: BufferModel) -> bool {
    0 <= m.cursor <= m.text.len()
}

/// The lengths of the text stay addressable by the cursor type.
pub open spec fn bounded(m: BufferModel) -> bool {
    m.text.len() <= i64::MAX
}

/// Whatever edits a frame applies, the end-of-frame clamp leaves the cursor
/// within `0..=len`.
pub proof fn lemma_cursor_settled_after_frame(m: BufferModel, edits: Seq<Edit>)
    ensures
        settled(clamped(applied_all(m, edits))),
{
}

/// Deleting before the cursor right after inserting a character at that same
/// cursor gives back the text and cursor from before the insert.
pub proof fn lemma_insert_then_delete(m: BufferModel, c: char)
    requires
        settled(m),
        m.text.len() < i64::MAX,
    ensures
        deleted(inserted(m, c)) == m,
{
    let r = deleted(inserted(m, c));
    assert(r.text =~= m.text);
}

/// Characters being typed, with an insertion cursor.
pub struct TextBuffer {
    chars: Vec<char>,
    cursor: i64,
}

impl View for TextBuffer {
    type V = BufferModel;

    closed spec fn view(&self) -> BufferModel {
        BufferModel { text: self.chars@, cursor: self.cursor as int }
    }
}

impl TextBuffer {
    /// An empty buffer with the cursor at zero.
    pub fn new() -> (r: TextBuffer)
        ensures
            r@.text == Seq::<char>::empty(),
            r@.cursor == 0,
    {
        TextBuffer { chars: Vec::new(), cursor: 0 }
    }

    /// The characters typed so far.
    pub fn chars(&self) -> (r: &Vec<char>)
        ensures
            r@ == self@.text,
    {
        &self.chars
    }

    /// The cursor position, which may be out of range within a frame.
    pub fn cursor(&self) -> (r: i64)
        ensures
            r as int == self@.cursor,
    {
        self.cursor
    }

    /// Number of characters in the buffer.
    pub fn len(&self) -> (r: usize)
        ensures
            r as int == self@.text.len(),
    {
        self.chars.len()
    }
    /// Inserts `c` at the cursor and moves the cursor past it.
    pub fn insert_char(&mut self, c: char)
        requires
            bounded(old(self)@),
        ensures
            final(self)@ == inserted(old(self)@, c),
            bounded(final(self)@),
    {
        if 0 <= self.cursor && (self.cursor as u64) <= (self.chars.len() as u64)
            && (self.chars.len() as u64) < (i64::MAX as u64) {
            let at: usize = self.cursor as usize;
            self.chars.insert(at, c);
            self.cursor = self.cursor + 1;
        }
    }

    /// Removes the character just before the cursor; nothing happens when the
    /// cursor is at zero or out of range.
    pub fn delete_before_cursor(&mut self)
        requires
            bounded(old(self)@),
        ensures
            final(self)@ == deleted(old(self)@),
            bounded(final(self)@),
    {
        if 1 <= self.cursor && (self.cursor as u64) <= (self.chars.len() as u64) {
            self.cursor = self.cursor - 1;
            let at: usize = self.cursor as usize;
            self.chars.remove(at);
        }
    }

    /// Moves the cursor one step left, without clamping.
    pub fn move_left(&mut self)
        ensures
            final(self)@ == moved_left(old(self)@),
    {
        if self.cursor > i64::MIN {
            self.cursor = self.cursor - 1;
        }
    }

    /// Moves the cursor one step right, without clamping.
    pub fn move_right(&mut self)
        ensures
            final(self)@ == moved_right(old(self)@),
    {
        if self.cursor < i64::MAX {
            self.cursor = self.cursor + 1;
        }
    }

    /// Brings the cursor back into `0..=len`.
    pub fn clamp_cursor(&mut self)
        requires
            bounded(old(self)@),
        ensures
            final(self)@ == clamped(old(self)@),
            settled(final(self)@),
    {
        let len: i64 = self.chars.len() as i64;
        if self.cursor < 0 {
            self.cursor = 0;
        } else if self.cursor > len {
            self.cursor = len;
        }
    }

    /// Applies one edit.
    pub fn apply(&mut self, e: Edit)
        requires
            bounded(old(self)@),
        ensures
            final(self)@ == applied(old(self)@, e),
            bounded(final(self)@),
    {
        match e {
            Edit::Insert(c) => self.insert_char(c),
            Edit::DeleteBefore => self.delete_before_cursor(),
            Edit::CursorLeft => self.move_left(),
            Edit::CursorRight => self.move_right(),
            Edit::Nothing => {},
        }
    }
}

} // verus!
