//! Text strokes: a text placed on the document, with its style.

use crate::cursor::TextCursor;
use crate::text_buffer::{
    byte_len, is_boundary, lemma_boundary_in_range, replace_between,
    slice_between, utf8,
};
use crate::text_style::{
    attribute_list_outside, attributes_outside, remap_attribute_list, remap_attributes, TextStyle,
    TextStyleView,
};
use std::ops::Range;
use vstd::prelude::*;

verus! {

/// A point of the document, each coordinate an `f64` given by its bit pattern.
#[derive(Clone, Copy, Debug, PartialEq, Eq, Structural)]
pub struct PointBits {
    pub x: u64,
    pub y: u64,
}

/// A text on the document: its characters, the point where it is placed, and
/// its style.
#[derive(Clone, Debug)]
pub struct TextStroke {
    pub text: String,
    pub position: PointBits,
    pub text_style: TextStyle,
}

/// What a [`TextStroke`] stands for.
pub struct TextStrokeView {
    pub text: Seq<char>,
    pub position: PointBits,
    pub text_style: TextStyleView,
}

impl View for TextStroke {
    type V = TextStrokeView;

    open spec fn view(&self) -> TextStrokeView {
        TextStrokeView { text: self.text@, position: self.position, text_style: self.text_style@ }
    }
}

impl TextStrokeView {
    /// The UTF-8 bytes of the text.
    pub open spec fn bytes(self) -> Seq<u8> {
        utf8(self.text)
    }

    /// The text stroke after the bytes between the boundaries `lo` and `hi` are
    /// replaced by `inserted`: the ranged attributes follow the bytes they
    /// cover, the rest of the style and the position stay.
    pub open spec fn replaced(self, lo: usize, hi: usize, inserted: Seq<char>) -> (Seq<u8>, TextStyleView) {
        (
            self.bytes().subrange(0, lo as int) + utf8(inserted) + self.bytes().subrange(
                hi as int,
                self.bytes().len() as int,
            ),
            TextStyleView {
                ranged_text_attributes: remap_attributes(
                    self.text_style.ranged_text_attributes,
                    lo,
                    hi,
                    utf8(inserted).len() as usize,
                ),
                ..self.text_style
            },
        )
    }
}

/// The lower and the upper of two cursor offsets, as a range.
pub open spec fn ordered(a: usize, b: usize) -> (usize, usize) {
    if a < b {
        (a, b)
    } else {
        (b, a)
    }
}

impl TextStroke {
    /// A text stroke with `text` at `position`, styled by `text_style`.
    pub fn new(text: String, position: PointBits, text_style: TextStyle) -> (stroke: TextStroke)
        ensures
            stroke@ == (TextStrokeView { text: text@, position, text_style: text_style@ }),
    {
        TextStroke { text, position, text_style }
    }

    /// A copy of this text stroke.
    pub fn duplicate(&self) -> (copy: TextStroke)
        ensures
            copy@ == self@,
    {
        TextStroke {
            text: self.text.clone(),
            position: self.position,
            text_style: self.text_style.duplicate(),
        }
    }

    /// The length of the text in bytes.
    pub fn text_len(&self) -> (n: usize)
        ensures
            n == self@.bytes().len(),
    {
        byte_len(self.text.as_str())
    }

    /// The part of the text in the byte range `range`, whose ends are
    /// character boundaries.
    pub fn get_text_slice_for_range(&self, range: Range<usize>) -> (part: &str)
        requires
            range.start <= range.end,
            is_boundary(self.text@, range.start as int),
            is_boundary(self.text@, range.end as int),
        ensures
            utf8(part@) == self@.bytes().subrange(range.start as int, range.end as int),
    {
        slice_between(self.text.as_str(), range.start, range.end)
    }

    /// Replaces the bytes between the boundaries `lo` and `hi` by `inserted` and
    /// returns the offset just after the inserted text.
    fn replace_range(&mut self, lo: usize, hi: usize, inserted: &str) -> (after: usize)
        requires
            lo <= hi,
            is_boundary(old(self).text@, lo as int),
            is_boundary(old(self).text@, hi as int),
        ensures
            (final(self)@.bytes(), final(self)@.text_style) == old(self)@.replaced(lo, hi, inserted@),
            final(self)@.position == old(self)@.position,
            after == lo + utf8(inserted@).len(),
            after <= final(self)@.bytes().len(),
            is_boundary(final(self).text@, after as int),
    {
        let new_text = replace_between(self.text.as_str(), lo, hi, inserted);
        let new_len = byte_len(new_text.as_str());
        let n = byte_len(inserted);
        proof {
            lemma_boundary_in_range(self.text@, hi as int);
            assert(new_len == lo + n + (utf8(self.text@).len() - hi));
        }
        let after = lo + n;
        let attrs = remap_attribute_list(&self.text_style.ranged_text_attributes, lo, hi, n);
        self.text = new_text;
        self.text_style.ranged_text_attributes = attrs;
        after
    }

    /// Inserts `text` at the cursor and moves the cursor to just after it.
    pub fn insert_text_after_cursor(&mut self, text: &str, cursor: &mut TextCursor)
        requires
            is_boundary(old(self).text@, old(cursor).offset as int),
        ensures
            (final(self)@.bytes(), final(self)@.text_style) == old(self)@.replaced(
                old(cursor).offset,
                old(cursor).offset,
                text@,
            ),
            final(self)@.position == old(self)@.position,
            *final(cursor) == (TextCursor {
                offset: (old(cursor).offset + utf8(text@).len()) as usize,
                len: final(self)@.bytes().len() as usize,
            }),
            is_boundary(final(self).text@, final(cursor).offset as int),
    {
        let at = cursor.cur_cursor();
        let after = self.replace_range(at, at, text);
        *cursor = TextCursor::new(after, self.text_len());
    }

    /// Replaces the text between the two cursors by `text` and puts both cursors
    /// just after it.
    pub fn replace_text_between_selection_cursors(
        &mut self,
        cursor: &mut TextCursor,
        selection_cursor: &mut TextCursor,
        text: &str,
    )
        requires
            is_boundary(old(self).text@, old(cursor).offset as int),
            is_boundary(old(self).text@, old(selection_cursor).offset as int),
        ensures
            ({
                let (lo, hi) = ordered(old(cursor).offset, old(selection_cursor).offset);
                let after = TextCursor {
                    offset: (lo + utf8(text@).len()) as usize,
                    len: final(self)@.bytes().len() as usize,
                };
                &&& (final(self)@.bytes(), final(self)@.text_style) == old(self)@.replaced(lo, hi, text@)
                &&& *final(cursor) == after
                &&& *final(selection_cursor) == after
            }),
            final(self)@.position == old(self)@.position,
            is_boundary(final(self).text@, final(cursor).offset as int),
    {
        let a = cursor.cur_cursor();
        let b = selection_cursor.cur_cursor();
        let (lo, hi) = if a < b {
            (a, b)
        } else {
            (b, a)
        };
        let after = self.replace_range(lo, hi, text);
        let len = self.text_len();
        *cursor = TextCursor::new(after, len);
        *selection_cursor = TextCursor::new(after, len);
    }

    /// Removes the ranged attributes whose range overlaps `range`.
    pub fn remove_attrs_for_range(&mut self, range: Range<usize>)
        ensures
            final(self)@ == (TextStrokeView {
                text_style: TextStyleView {
                    ranged_text_attributes: attributes_outside(
                        old(self)@.text_style.ranged_text_attributes,
                        range.start,
                        range.end,
                    ),
                    ..old(self)@.text_style
                },
                ..old(self)@
            }),
    {
        let attrs = attribute_list_outside(
            &self.text_style.ranged_text_attributes,
            range.start,
            range.end,
        );
        self.text_style.ranged_text_attributes = attrs;
    }
}

} // verus!
