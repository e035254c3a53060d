//! Byte-level editing of UTF-8 text held in a `String`.
//!
//! Cursor positions in this library are byte offsets into the UTF-8 encoding of a
//! text, as in `str` indexing. Every edit here happens at character boundaries, so
//! the result is again well-formed text.

use vstd::prelude::*;
use vstd::utf8::*;
use vstd::string::StringSliceAdditionalSpecFns;

verus! {

broadcast use vstd::utf8::group_utf8_lib;

/// The UTF-8 encoding of a text.
pub open spec fn utf8(text: Seq<char>) -> Seq<u8> {
    encode_utf8(text)
}

/// `index` is a character boundary of the UTF-8 encoding of `text`.
pub open spec fn is_boundary(text: Seq<char>, index: int) -> bool {
    is_char_boundary(utf8(text), index)
}

/// The encoding of a concatenation is the concatenation of the encodings.
pub proof fn lemma_utf8_concat(a: Seq<char>, b: Seq<char>)
    ensures
        utf8(a + b) == utf8(a) + utf8(b),
    decreases a.len(),
{
    if a.len() == 0 {
        assert(a + b =~= b);
        assert(utf8(a) + utf8(b) =~= utf8(b));
    } else {
        lemma_utf8_concat(a.drop_first(), b);
        assert((a + b).drop_first() =~= a.drop_first() + b);
        assert((a + b)[0] == a[0]);
        assert(utf8(a + b) =~= utf8(a) + utf8(b));
    }
}

/// The end of the encoding of `a` is a boundary in the encoding of `a + b`.
pub proof fn lemma_boundary_after_prefix(a: Seq<char>, b: Seq<char>)
    ensures
        is_boundary(a + b, utf8(a).len() as int),
    decreases a.len(),
{
    let bytes = utf8(a + b);
    if a.len() == 0 {
        is_char_boundary_start_end_of_seq(bytes);
    } else {
        lemma_boundary_after_prefix(a.drop_first(), b);
        assert((a + b).drop_first() =~= a.drop_first() + b);
        assert((a + b)[0] == a[0]);
        encode_utf8_first_scalar(a + b);
        assert(pop_first_scalar(bytes) =~= utf8(a.drop_first() + b));
        reveal_with_fuel(is_char_boundary, 2);
    }
}

/// A boundary index is within the encoding.
pub proof fn lemma_boundary_in_range(text: Seq<char>, index: int)
    requires
        is_boundary(text, index),
    ensures
        0 <= index <= utf8(text).len(),
{
    reveal_with_fuel(is_char_boundary, 1);
}

/// Start and end of the encoding are boundaries.
pub proof fn lemma_ends_are_boundaries(text: Seq<char>)
    ensures
        is_boundary(text, 0),
        is_boundary(text, utf8(text).len() as int),
{
    is_char_boundary_start_end_of_seq(utf8(text));
}

/// A boundary `hi` of `bytes` at or after the boundary `lo` is a boundary of the
/// suffix that starts at `lo`.
proof fn lemma_boundary_in_suffix(bytes: Seq<u8>, lo: int, hi: int)
    requires
        valid_utf8(bytes),
        is_char_boundary(bytes, lo),
        is_char_boundary(bytes, hi),
        lo <= hi,
    ensures
        valid_utf8(bytes.subrange(lo, bytes.len() as int)),
        is_char_boundary(bytes.subrange(lo, bytes.len() as int), hi - lo),
{
    reveal_with_fuel(is_char_boundary, 1);
    valid_utf8_split(bytes, lo);
    let rest = bytes.subrange(lo, bytes.len() as int);
    if hi == bytes.len() {
        is_char_boundary_start_end_of_seq(rest);
    } else if hi == lo {
    } else {
        is_char_boundary_iff_not_is_continuation_byte(bytes, hi);
        is_char_boundary_iff_not_is_continuation_byte(rest, hi - lo);
        assert(rest[hi - lo] == bytes[hi]);
    }
}

/// The number of bytes in the UTF-8 encoding of `text`.
pub fn byte_len(text: &str) -> (n: usize)
    ensures
        n == utf8(text@).len(),
{
    text.as_bytes().len()
}

/// The bytes of `text` between the boundaries `lo` and `hi`, as text.
pub fn slice_between(text: &str, lo: usize, hi: usize) -> (part: &str)
    requires
        lo <= hi,
        is_boundary(text@, lo as int),
        is_boundary(text@, hi as int),
    ensures
        utf8(part@) == utf8(text@).subrange(lo as int, hi as int),
{
    let ghost bytes = utf8(text@);
    proof {
        lemma_boundary_in_range(text@, hi as int);
        lemma_boundary_in_suffix(bytes, lo as int, hi as int);
    }
    let (_head, rest) = text.split_at(lo);
    assert(rest.spec_bytes() == utf8(rest@));
    let (mid, _tail) = rest.split_at(hi - lo);
    assert(utf8(mid@) =~= bytes.subrange(lo as int, hi as int));
    mid
}

/// `text` with `inserted` put in at the boundary `at`.
pub fn insert_at(text: &str, at: usize, inserted: &str) -> (result: String)
    requires
        is_boundary(text@, at as int),
    ensures
        utf8(result@) == utf8(text@).subrange(0, at as int) + utf8(inserted@) + utf8(
            text@,
        ).subrange(at as int, utf8(text@).len() as int),
{
    replace_between(text, at, at, inserted)
}

/// `text` with the bytes between the boundaries `lo` and `hi` replaced by `replacement`.
pub fn replace_between(text: &str, lo: usize, hi: usize, replacement: &str) -> (result: String)
    requires
        lo <= hi,
        is_boundary(text@, lo as int),
        is_boundary(text@, hi as int),
    ensures
        utf8(result@) == utf8(text@).subrange(0, lo as int) + utf8(replacement@) + utf8(
            text@,
        ).subrange(hi as int, utf8(text@).len() as int),
        is_boundary(result@, lo + utf8(replacement@).len()),
{
    let ghost bytes = utf8(text@);
    proof {
        lemma_boundary_in_range(text@, hi as int);
        lemma_boundary_in_suffix(bytes, lo as int, hi as int);
    }
    let (head, rest) = text.split_at(lo);
    assert(rest.spec_bytes() == utf8(rest@));
    let (_mid, tail) = rest.split_at(hi - lo);
    let mut result = String::from_str(head);
    result.append(replacement);
    result.append(tail);
    proof {
        lemma_utf8_concat(head@, replacement@);
        lemma_utf8_concat(head@ + replacement@, tail@);
        assert(utf8(tail@) =~= bytes.subrange(hi as int, bytes.len() as int));
        assert(utf8(head@) =~= bytes.subrange(0, lo as int));
        lemma_boundary_after_prefix(head@ + replacement@, tail@);
    }
    result
}

} // verus!
