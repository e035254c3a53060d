//! Cursors into a text.
//!
//! A cursor is a byte offset into a text together with the length of the text it
//! was made for, the two values that a grapheme cursor is created from and that
//! the typewriter reads back (`GraphemeCursor::new(offset, len, true)` and
//! `cur_cursor()` in `unicode_segmentation`). Moving by grapheme clusters is done
//! by the caller, which turns a `TextCursor` into a grapheme cursor at its edge.

use vstd::prelude::*;

verus! {

/// A byte offset into a text of `len` bytes.
#[derive(Clone, Copy, Debug, PartialEq, Eq, Structural)]
pub struct TextCursor {
    pub offset: usize,
    pub len: usize,
}

/// The smaller of two offsets.
pub open spec fn min_offset(a: usize, b: usize) -> usize {
    if a <= b {
        a
    } else {
        b
    }
}

impl TextCursor {
    /// A cursor at `offset` in a text of `len` bytes.
    pub fn new(offset: usize, len: usize) -> (cursor: TextCursor)
        ensures
            cursor == (TextCursor { offset, len }),
    {
        TextCursor { offset, len }
    }

    /// The byte offset of this cursor.
    pub fn cur_cursor(&self) -> (offset: usize)
        ensures
            offset == self.offset,
    {
        self.offset
    }

    /// A cursor for a text of `len` bytes at this cursor's offset, or at the end
    /// of that text where the offset lies beyond it.
    pub fn clamped_to(&self, len: usize) -> (cursor: TextCursor)
        ensures
            cursor == (TextCursor { offset: min_offset(self.offset, len), len }),
            cursor.offset <= len,
    {
        let offset = if self.offset <= len {
            self.offset
        } else {
            len
        };
        TextCursor::new(offset, len)
    }
}

} // verus!
