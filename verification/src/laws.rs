//! Properties that hold across the operations of the typewriter.

use crate::cursor::TextCursor;
use crate::store::{no_flags, recorded_flags, text_stroke_at, StrokeKey, StrokeView, WidgetFlags};
use crate::text_buffer::{is_boundary, lemma_boundary_in_range, lemma_utf8_concat, utf8};
use crate::text_stroke::TextStrokeView;
use crate::text_style::{
    attributes_outside, remap_attributes, remap_position, RangedTextAttributeView, TextAttributeView,
};
use crate::typewriter::{
    edited_flags, new_stroke_style, selection_of, state_stroke_key, synced_with, TypewriterState, TypewriterView,
};
use crate::drawing::{draw_plan_of, NodeState};
use vstd::prelude::*;

verus! {

/// Remapping for an insertion of `a` bytes at `c` and then of `b` bytes just
/// after it moves a position as one insertion of `a + b` bytes at `c` does.
proof fn lemma_remap_insertions_compose(p: usize, c: usize, a: usize, b: usize)
    requires
        c + a + b <= usize::MAX,
    ensures
        remap_position(remap_position(p, c, c, a), (c + a) as usize, (c + a) as usize, b)
            == remap_position(p, c, c, (a + b) as usize),
{
}

/// Typing `a` and then `b` at a cursor gives the text and the style that typing
/// `a + b` at once gives, and leaves the cursor at the same place: when `t1` is
/// the text stroke `t` after `a` was inserted at the boundary `c`, inserting `b`
/// just after `a` yields what inserting `a + b` at `c` yields.
pub proof fn lemma_insertions_compose(
    t: TextStrokeView,
    c: usize,
    a: Seq<char>,
    b: Seq<char>,
    t1: TextStrokeView,
)
    requires
        is_boundary(t.text, c as int),
        t.bytes().len() + utf8(a).len() + utf8(b).len() <= usize::MAX,
        (t1.bytes(), t1.text_style) == t.replaced(c, c, a),
    ensures
        t1.replaced((c + utf8(a).len()) as usize, (c + utf8(a).len()) as usize, b) == t.replaced(
            c,
            c,
            a + b,
        ),
        c + utf8(a).len() + utf8(b).len() == c + utf8(a + b).len(),
{
    lemma_boundary_in_range(t.text, c as int);
    lemma_utf8_concat(a, b);
    let tb = t.bytes();
    let ab = utf8(a);
    let bb = utf8(b);
    let m = (c + ab.len()) as usize;
    let t1b = t1.bytes();
    assert(t1b.subrange(0, m as int) =~= tb.subrange(0, c as int) + ab);
    assert(t1b.subrange(m as int, t1b.len() as int) =~= tb.subrange(c as int, tb.len() as int));
    assert(t1.replaced(m, m, b).0 =~= t.replaced(c, c, a + b).0);
    let attrs = t.text_style.ranged_text_attributes;
    assert forall|i: int| 0 <= i < attrs.len() implies #[trigger] remap_attributes(
        remap_attributes(attrs, c, c, ab.len() as usize),
        m,
        m,
        bb.len() as usize,
    )[i] == remap_attributes(attrs, c, c, (ab.len() + bb.len()) as usize)[i] by {
        lemma_remap_insertions_compose(attrs[i].start, c, ab.len() as usize, bb.len() as usize);
        lemma_remap_insertions_compose(attrs[i].end, c, ab.len() as usize, bb.len() as usize);
    }
    assert(remap_attributes(remap_attributes(attrs, c, c, ab.len() as usize), m, m, bb.len() as usize)
        =~= remap_attributes(attrs, c, c, (ab.len() + bb.len()) as usize));
}

/// What was typed can be read back: after `a` was inserted at the boundary `c`
/// of `t`, the bytes from `c` to the new cursor are exactly those of `a`, and the
/// bytes before and after them are those of `t`.
pub proof fn lemma_read_back_inserted(t: TextStrokeView, c: usize, a: Seq<char>, t1: TextStrokeView)
    requires
        is_boundary(t.text, c as int),
        (t1.bytes(), t1.text_style) == t.replaced(c, c, a),
    ensures
        t1.bytes().subrange(c as int, c + utf8(a).len()) == utf8(a),
        t1.bytes().subrange(0, c as int) == t.bytes().subrange(0, c as int),
        t1.bytes().subrange(c + utf8(a).len(), t1.bytes().len() as int) == t.bytes().subrange(
            c as int,
            t.bytes().len() as int,
        ),
{
    lemma_boundary_in_range(t.text, c as int);
    let tb = t.bytes();
    let ab = utf8(a);
    let t1b = t1.bytes();
    assert(t1b.subrange(c as int, c + ab.len()) =~= ab);
    assert(t1b.subrange(0, c as int) =~= tb.subrange(0, c as int));
    assert(t1b.subrange(c + ab.len(), t1b.len() as int) =~= tb.subrange(c as int, tb.len() as int));
}

/// Typing the empty text at a cursor changes neither the text nor its style.
pub proof fn lemma_insert_nothing_is_identity(t: TextStrokeView, c: usize)
    requires
        is_boundary(t.text, c as int),
    ensures
        t.replaced(c, c, Seq::empty()) == (t.bytes(), t.text_style),
{
    lemma_boundary_in_range(t.text, c as int);
    assert(utf8(Seq::<char>::empty()) =~= Seq::<u8>::empty());
    let tb = t.bytes();
    assert(tb.subrange(0, c as int) + utf8(Seq::empty()) + tb.subrange(c as int, tb.len() as int) =~= tb);
    let attrs = t.text_style.ranged_text_attributes;
    assert(remap_attributes(attrs, c, c, 0) =~= attrs);
}

/// Every cursor of `state` is made for a text of `len` bytes and lies within it.
pub open spec fn cursors_within(state: TypewriterState, len: usize) -> bool {
    let fits = |cursor: TextCursor| cursor.len == len && cursor.offset <= len;
    match state {
        TypewriterState::Idle | TypewriterState::Start(_) => true,
        TypewriterState::Modifying { cursor, .. } => fits(cursor),
        TypewriterState::Selecting { cursor, selection_cursor, .. } => fits(cursor) && fits(
            selection_cursor,
        ),
        TypewriterState::Translating { cursor, .. } => fits(cursor),
        TypewriterState::AdjustTextWidth { cursor, .. } => fits(cursor),
    }
}

/// After the typewriter took over the text stroke its state refers to, its
/// cursors are made for the text of that stroke and lie within it.
pub proof fn lemma_synced_cursors_within_text(tw: TypewriterView, m: Map<u64, StrokeView>)
    ensures
        match state_stroke_key(tw.state) {
            Some(key) => match text_stroke_at(m, key) {
                Some(t) => cursors_within(synced_with(tw, m).state, t.bytes().len() as usize),
                None => synced_with(tw, m) == tw,
            },
            None => synced_with(tw, m) == tw,
        },
{
}

/// Taking over the text stroke twice is taking it over once.
pub proof fn lemma_sync_idempotent(tw: TypewriterView, m: Map<u64, StrokeView>)
    ensures
        synced_with(synced_with(tw, m), m) == synced_with(tw, m),
{
    let once = synced_with(tw, m);
    assert(state_stroke_key(once.state) == state_stroke_key(tw.state));
    if let Some(key) = state_stroke_key(tw.state) {
        if let Some(t) = text_stroke_at(m, key) {
            assert(once.text_style.without_ranged_attributes() =~= once.text_style);
            assert(synced_with(once, m).state == once.state);
        }
    }
}

/// Removing the attributes of a non-empty selection takes away an attribute
/// that was just added for that selection.
pub proof fn lemma_remove_undoes_add(
    attrs: Seq<RangedTextAttributeView>,
    attribute: TextAttributeView,
    lo: usize,
    hi: usize,
)
    requires
        lo < hi,
    ensures
        attributes_outside(
            attrs.push(RangedTextAttributeView { attribute, start: lo, end: hi }),
            lo,
            hi,
        ) == attributes_outside(attrs, lo, hi),
{
    let added = RangedTextAttributeView { attribute, start: lo, end: hi };
    reveal(Seq::filter);
    assert(attrs.push(added).drop_last() =~= attrs);
}

/// Which of the two cursors is the selection cursor does not matter: the
/// selection runs from the lower to the higher of them either way.
pub proof fn lemma_selection_symmetric(
    stroke_key: StrokeKey,
    cursor: TextCursor,
    selection_cursor: TextCursor,
    finished: bool,
)
    ensures
        selection_of(TypewriterState::Selecting { stroke_key, cursor, selection_cursor, finished })
            == selection_of(
            TypewriterState::Selecting {
                stroke_key,
                cursor: selection_cursor,
                selection_cursor: cursor,
                finished,
            },
        ),
        selection_of(TypewriterState::Selecting { stroke_key, cursor, selection_cursor, finished })
            matches Some((lo, hi, key)) && lo <= hi && key == stroke_key && ((lo == cursor.offset
            && hi == selection_cursor.offset) || (lo == selection_cursor.offset && hi
            == cursor.offset)),
{
}

/// A text stroke started by the typewriter gets the typewriter's own style:
/// the same font family, size, weight, slant and color, no ranged attributes,
/// and the typewriter's text width as width limit when that is enabled (the
/// style's own limit otherwise).
pub proof fn lemma_new_stroke_takes_typewriter_style(tw: TypewriterView)
    ensures
        new_stroke_style(tw).font_family == tw.text_style.font_family,
        new_stroke_style(tw).font_size == tw.text_style.font_size,
        new_stroke_style(tw).font_weight == tw.text_style.font_weight,
        new_stroke_style(tw).font_style == tw.text_style.font_style,
        new_stroke_style(tw).color == tw.text_style.color,
        new_stroke_style(tw).ranged_text_attributes.len() == 0,
        tw.max_width_enabled ==> new_stroke_style(tw).max_width == Some(tw.text_width),
        !tw.max_width_enabled ==> new_stroke_style(tw).max_width == tw.text_style.max_width,
{
}

/// Taking over a text stroke takes over its whole style (font family, size,
/// weight, slant, color and width limit) but none of its ranged attributes,
/// takes its width limit as text width where it has one, and keeps whether the
/// width limit is enabled.
pub proof fn lemma_sync_takes_stroke_style(
    tw: TypewriterView,
    m: Map<u64, StrokeView>,
    key: StrokeKey,
    t: TextStrokeView,
)
    requires
        state_stroke_key(tw.state) == Some(key),
        text_stroke_at(m, key) == Some(t),
    ensures
        synced_with(tw, m).text_style.font_family == t.text_style.font_family,
        synced_with(tw, m).text_style.font_size == t.text_style.font_size,
        synced_with(tw, m).text_style.font_weight == t.text_style.font_weight,
        synced_with(tw, m).text_style.font_style == t.text_style.font_style,
        synced_with(tw, m).text_style.color == t.text_style.color,
        synced_with(tw, m).text_style.max_width == t.text_style.max_width,
        synced_with(tw, m).text_style.ranged_text_attributes.len() == 0,
        synced_with(tw, m).max_width_enabled == tw.max_width_enabled,
        t.text_style.max_width matches Some(w) ==> synced_with(tw, m).text_width == w,
        t.text_style.max_width is None ==> synced_with(tw, m).text_width == tw.text_width,
{
}

/// `new` is `old` made for a text of `len` bytes: the same offset where that
/// lies within the text, the end of the text where it lies beyond it.
pub open spec fn moved_into_text(old: TextCursor, new: TextCursor, len: int) -> bool {
    &&& new.len == len
    &&& old.offset <= len ==> new.offset == old.offset
    &&& old.offset > len ==> new.offset == len
}

/// Taking over a text stroke of `len` bytes keeps every cursor's offset where it
/// lies within the text and moves it to the end of the text where it lies
/// beyond it; the rest of the state stays.
pub proof fn lemma_sync_clamps_cursors(
    tw: TypewriterView,
    m: Map<u64, StrokeView>,
    key: StrokeKey,
    t: TextStrokeView,
)
    requires
        state_stroke_key(tw.state) == Some(key),
        text_stroke_at(m, key) == Some(t),
        t.bytes().len() <= usize::MAX,
    ensures
        ({
            let len = t.bytes().len() as int;
            match tw.state {
                TypewriterState::Modifying { stroke_key, cursor, pen_down } => synced_with(
                    tw,
                    m,
                ).state matches TypewriterState::Modifying { stroke_key: k, cursor: c, pen_down: p }
                    && k == stroke_key && p == pen_down && moved_into_text(cursor, c, len),
                TypewriterState::Selecting { stroke_key, cursor, selection_cursor, finished } =>
                    synced_with(tw, m).state matches TypewriterState::Selecting {
                    stroke_key: k,
                    cursor: c,
                    selection_cursor: s,
                    finished: f,
                } && k == stroke_key && f == finished && moved_into_text(cursor, c, len)
                    && moved_into_text(selection_cursor, s, len),
                TypewriterState::Translating { stroke_key, cursor, start_pos, current_pos } =>
                    synced_with(tw, m).state matches TypewriterState::Translating {
                    stroke_key: k,
                    cursor: c,
                    start_pos: sp,
                    current_pos: cp,
                } && k == stroke_key && sp == start_pos && cp == current_pos && moved_into_text(
                    cursor,
                    c,
                    len,
                ),
                TypewriterState::AdjustTextWidth {
                    stroke_key,
                    cursor,
                    start_text_width,
                    start_pos,
                    current_pos,
                } => synced_with(tw, m).state matches TypewriterState::AdjustTextWidth {
                    stroke_key: k,
                    cursor: c,
                    start_text_width: w,
                    start_pos: sp,
                    current_pos: cp,
                } && k == stroke_key && w == start_text_width && sp == start_pos && cp
                    == current_pos && moved_into_text(cursor, c, len),
                _ => false,
            }
        }),
{
}

/// Removing the attributes of `lo..hi` leaves none that overlaps it, keeps
/// every one that does not, adds none, and keeps them in their order.
pub proof fn lemma_remove_clears_selection(
    attrs: Seq<RangedTextAttributeView>,
    lo: usize,
    hi: usize,
)
    ensures
        forall|i: int|
            0 <= i < attributes_outside(attrs, lo, hi).len() ==> !(
            #[trigger] attributes_outside(attrs, lo, hi)[i].start < hi && lo < attributes_outside(
                attrs,
                lo,
                hi,
            )[i].end),
        forall|i: int|
            0 <= i < attrs.len() && !(attrs[i].start < hi && lo < attrs[i].end)
                ==> attributes_outside(attrs, lo, hi).contains(#[trigger] attrs[i]),
        forall|a: RangedTextAttributeView|
            #[trigger] attributes_outside(attrs, lo, hi).contains(a) ==> attrs.contains(a),
        attributes_outside(attrs, lo, hi).len() <= attrs.len(),
{
    let pred = |a: RangedTextAttributeView| !a.overlaps(lo, hi);
    assert forall|i: int| 0 <= i < attributes_outside(attrs, lo, hi).len() implies !(
    #[trigger] attributes_outside(attrs, lo, hi)[i].start < hi && lo < attributes_outside(
        attrs,
        lo,
        hi,
    )[i].end) by {
        attrs.lemma_filter_pred(pred, i);
    }
    assert forall|i: int| 0 <= i < attrs.len() && !(attrs[i].start < hi && lo < attrs[i].end)
        implies attributes_outside(attrs, lo, hi).contains(#[trigger] attrs[i]) by {
        attrs.lemma_filter_contains(pred, i);
    }
    assert forall|a: RangedTextAttributeView|
        #[trigger] attributes_outside(attrs, lo, hi).contains(a) implies attrs.contains(a) by {
        attrs.lemma_filter_contains_rev(pred, a);
    }
    attrs.lemma_filter_len(pred);
}

/// The typewriter draws its text cursor exactly when a text is about to start or
/// while it modifies or selects in a text stroke; the selection exactly while it
/// selects in a text stroke; the outline exactly when a text is about to start
/// or its state refers to a text stroke; and around a text stroke both nodes,
/// the translate node pressed only while translating and the width node pressed
/// only while adjusting the width.
pub proof fn lemma_draw_plan_parts(state: TypewriterState, m: Map<u64, StrokeView>)
    ensures
        ({
            let has_text = match state_stroke_key(state) {
                Some(key) => text_stroke_at(m, key) is Some,
                None => false,
            };
            let plan = draw_plan_of(state, m);
            &&& plan.cursor <==> (state is Start || ((state is Modifying || state is Selecting)
                && has_text))
            &&& plan.selection <==> (state is Selecting && has_text)
            &&& plan.outline <==> (state is Start || has_text)
            &&& (plan.translate_node is Some <==> has_text)
            &&& (plan.adjust_text_width_node is Some <==> has_text)
            &&& (plan.translate_node == Some(NodeState::Down) <==> (state is Translating && has_text))
            &&& (plan.adjust_text_width_node == Some(NodeState::Down) <==> (state is AdjustTextWidth
                && has_text))
        }),
{
}

/// Replacing the bytes between the boundaries `lo` and `hi` by `inserted`
/// keeps the bytes before `lo` and after `hi`, puts exactly the bytes of
/// `inserted` between them, and changes the length by the difference.
pub proof fn lemma_replacement_content(
    t: TextStrokeView,
    lo: usize,
    hi: usize,
    inserted: Seq<char>,
)
    requires
        lo <= hi,
        is_boundary(t.text, lo as int),
        is_boundary(t.text, hi as int),
    ensures
        ({
            let old = t.bytes();
            let new = t.replaced(lo, hi, inserted).0;
            let n = utf8(inserted).len();
            &&& new.len() == old.len() - (hi - lo) + n
            &&& new.subrange(0, lo as int) == old.subrange(0, lo as int)
            &&& new.subrange(lo as int, lo + n) == utf8(inserted)
            &&& new.subrange(lo + n, new.len() as int) == old.subrange(hi as int, old.len() as int)
        }),
{
    lemma_boundary_in_range(t.text, hi as int);
    let old = t.bytes();
    let new = t.replaced(lo, hi, inserted).0;
    let n = utf8(inserted).len();
    assert(new.subrange(0, lo as int) =~= old.subrange(0, lo as int));
    assert(new.subrange(lo as int, lo + n) =~= utf8(inserted));
    assert(new.subrange(lo + n, new.len() as int) =~= old.subrange(hi as int, old.len() as int));
}

/// How an attribute position follows a replacement of `lo..hi` by `n` bytes:
/// positions up to `lo` stay, positions inside the replaced bytes go to the end
/// of the new ones, positions from `hi` on move by the change in length (as far
/// as `usize` reaches), and the order of positions is kept, so ranges stay ranges.
pub proof fn lemma_remap_follows_edit(p: usize, q: usize, lo: usize, hi: usize, n: usize)
    requires
        lo <= hi,
        lo + n <= usize::MAX,
    ensures
        p <= lo ==> remap_position(p, lo, hi, n) == p,
        lo < p <= hi ==> remap_position(p, lo, hi, n) == lo + n,
        hi < p && p + n - (hi - lo) <= usize::MAX ==> remap_position(p, lo, hi, n) == p + n - (hi
            - lo),
        p <= q ==> remap_position(p, lo, hi, n) <= remap_position(q, lo, hi, n),
{
}

/// Recording a history point makes undo available and leaves nothing to redo,
/// without asking for a redraw; an edit after it also asks for a redraw and
/// tells that the store changed.
pub proof fn lemma_edit_flags(resize: bool)
    ensures
        recorded_flags().hide_undo == Some(false),
        recorded_flags().hide_redo == Some(true),
        !recorded_flags().redraw && !recorded_flags().resize
            && !recorded_flags().indicate_changed_store,
        no_flags().merged(recorded_flags()) == recorded_flags(),
        edited_flags(resize) == (WidgetFlags {
            redraw: true,
            resize,
            indicate_changed_store: true,
            hide_undo: Some(false),
            hide_redo: Some(true),
        }),
        !no_flags().redraw && !no_flags().resize && !no_flags().indicate_changed_store
            && no_flags().hide_undo is None && no_flags().hide_redo is None,
{
}

} // verus!
