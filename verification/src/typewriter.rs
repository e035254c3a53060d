//! The typewriter pen: its state machine over a text stroke and the edits it
//! makes to the stroke store.

use crate::cursor::{min_offset, TextCursor};
use crate::store::{
    no_flags, recorded_flags, text_stroke_at, Stroke, StrokeKey, StrokeStore, StrokeView,
    WidgetFlags,
};
use crate::text_buffer::{byte_len, is_boundary, lemma_ends_are_boundaries, utf8};
use crate::text_stroke::{ordered, PointBits, TextStroke, TextStrokeView};
use crate::text_style::{
    attributes_outside, ColorBits, FontStyle, RangedTextAttribute, RangedTextAttributeView,
    TextAttribute, TextStyle, TextStyleView,
};
use std::ops::Range;
use vstd::prelude::*;

verus! {

/// `anyhow::Error`, the error type that clipboard content comes with. It is only
/// named in a signature: the typewriter never produces one.
#[verifier::external_type_specification]
#[verifier::external_body]
pub struct ExAnyhowError(anyhow::Error);

/// What the typewriter is doing.
#[derive(Clone, Copy, Debug, PartialEq, Eq, Structural)]
pub enum TypewriterState {
    /// No text stroke is being edited.
    Idle,
    /// A new text will start at this point.
    Start(PointBits),
    /// The text stroke under `stroke_key` is edited at `cursor`.
    Modifying { stroke_key: StrokeKey, cursor: TextCursor, pen_down: bool },
    /// Text of the stroke under `stroke_key` is selected between the two cursors.
    Selecting {
        stroke_key: StrokeKey,
        cursor: TextCursor,
        selection_cursor: TextCursor,
        /// Selecting has finished (it is reset on the next click).
        finished: bool,
    },
    /// The text stroke under `stroke_key` is being moved.
    Translating {
        stroke_key: StrokeKey,
        cursor: TextCursor,
        start_pos: PointBits,
        current_pos: PointBits,
    },
    /// The width of the text stroke under `stroke_key` is being adjusted (the
    /// start width an `f64` bit pattern).
    AdjustTextWidth {
        stroke_key: StrokeKey,
        cursor: TextCursor,
        start_text_width: u64,
        start_pos: PointBits,
        current_pos: PointBits,
    },
}

impl Default for TypewriterState {
    fn default() -> (state: TypewriterState)
        ensures
            state == TypewriterState::Idle,
    {
        TypewriterState::Idle
    }
}

/// The bit pattern of the `f64` 600.0, the default text width.
pub const DEFAULT_TEXT_WIDTH_BITS: u64 = 0x4082_c000_0000_0000u64;

/// The bit pattern of the `f64` 32.0, the default font size.
pub const DEFAULT_FONT_SIZE_BITS: u64 = 0x4040_0000_0000_0000u64;

/// The bit pattern of the `f64` 1.0.
pub const ONE_BITS: u64 = 0x3ff0_0000_0000_0000u64;

/// The default text style: black regular serif text of size 32 and weight 500,
/// without a width limit or ranged attributes.
pub open spec fn default_text_style() -> TextStyleView {
    TextStyleView {
        font_family: "serif"@,
        font_size: DEFAULT_FONT_SIZE_BITS,
        font_weight: 500,
        font_style: FontStyle::Regular,
        color: ColorBits { r: 0, g: 0, b: 0, a: ONE_BITS },
        max_width: None,
        ranged_text_attributes: Seq::empty(),
    }
}

impl Default for TextStyle {
    fn default() -> (style: TextStyle)
        ensures
            style@ == default_text_style(),
    {
        let style = TextStyle {
            font_family: String::from_str("serif"),
            font_size: DEFAULT_FONT_SIZE_BITS,
            font_weight: 500,
            font_style: FontStyle::Regular,
            color: ColorBits { r: 0, g: 0, b: 0, a: ONE_BITS },
            max_width: None,
            ranged_text_attributes: Vec::new(),
        };
        assert(style@.ranged_text_attributes =~= Seq::<RangedTextAttributeView>::empty());
        style
    }
}

/// The typewriter pen: the style and width it gives new texts, and its state.
#[derive(Debug)]
pub struct Typewriter {
    pub text_style: TextStyle,
    pub max_width_enabled: bool,
    /// The width of new texts, as the bit pattern of an `f64`.
    pub text_width: u64,
    state: TypewriterState,
}

/// What a [`Typewriter`] stands for.
pub struct TypewriterView {
    pub text_style: TextStyleView,
    pub max_width_enabled: bool,
    pub text_width: u64,
    pub state: TypewriterState,
}

impl View for Typewriter {
    type V = TypewriterView;

    closed spec fn view(&self) -> TypewriterView {
        TypewriterView {
            text_style: self.text_style@,
            max_width_enabled: self.max_width_enabled,
            text_width: self.text_width,
            state: self.state,
        }
    }
}

/// The key of the stroke that the state refers to, if any.
pub open spec fn state_stroke_key(state: TypewriterState) -> Option<StrokeKey> {
    match state {
        TypewriterState::Idle | TypewriterState::Start(_) => None,
        TypewriterState::Modifying { stroke_key, .. } => Some(stroke_key),
        TypewriterState::Selecting { stroke_key, .. } => Some(stroke_key),
        TypewriterState::Translating { stroke_key, .. } => Some(stroke_key),
        TypewriterState::AdjustTextWidth { stroke_key, .. } => Some(stroke_key),
    }
}

/// The ordered byte range of the selection and the key of its stroke, when the
/// typewriter is selecting.
pub open spec fn selection_of(state: TypewriterState) -> Option<(usize, usize, StrokeKey)> {
    match state {
        TypewriterState::Selecting { stroke_key, cursor, selection_cursor, .. } => {
            let (lo, hi) = ordered(cursor.offset, selection_cursor.offset);
            Some((lo, hi, stroke_key))
        },
        _ => None,
    }
}

/// The cursors that editing reads (that of a modified text, and both ends of a
/// selection) lie on character boundaries of the text stroke they refer to,
/// where that stroke is a text stroke.
pub open spec fn edit_cursors_fit(state: TypewriterState, m: Map<u64, StrokeView>) -> bool {
    match state {
        TypewriterState::Modifying { stroke_key, cursor, .. } => text_stroke_at(m, stroke_key) matches Some(t)
            ==> is_boundary(t.text, cursor.offset as int),
        TypewriterState::Selecting { stroke_key, cursor, selection_cursor, .. } => text_stroke_at(
            m,
            stroke_key,
        ) matches Some(t) ==> is_boundary(t.text, cursor.offset as int) && is_boundary(
            t.text,
            selection_cursor.offset as int,
        ),
        _ => true,
    }
}

/// The ends of the selection lie on character boundaries of its text stroke,
/// where the typewriter is selecting in a text stroke.
pub open spec fn selection_fits(state: TypewriterState, m: Map<u64, StrokeView>) -> bool {
    state is Selecting ==> edit_cursors_fit(state, m)
}

/// `state` with every cursor made for a text of `len` bytes, at its offset or at
/// the end of the text where the offset lies beyond it.
pub open spec fn clamp_state_cursors(state: TypewriterState, len: usize) -> TypewriterState {
    let clamp = |c: TextCursor| TextCursor { offset: min_offset(c.offset, len), len };
    match state {
        TypewriterState::Idle => state,
        TypewriterState::Start(_) => state,
        TypewriterState::Modifying { stroke_key, cursor, pen_down } => TypewriterState::Modifying {
            stroke_key,
            cursor: clamp(cursor),
            pen_down,
        },
        TypewriterState::Selecting { stroke_key, cursor, selection_cursor, finished } =>
            TypewriterState::Selecting {
            stroke_key,
            cursor: clamp(cursor),
            selection_cursor: clamp(selection_cursor),
            finished,
        },
        TypewriterState::Translating { stroke_key, cursor, start_pos, current_pos } =>
            TypewriterState::Translating { stroke_key, cursor: clamp(cursor), start_pos, current_pos },
        TypewriterState::AdjustTextWidth {
            stroke_key,
            cursor,
            start_text_width,
            start_pos,
            current_pos,
        } => TypewriterState::AdjustTextWidth {
            stroke_key,
            cursor: clamp(cursor),
            start_text_width,
            start_pos,
            current_pos,
        },
    }
}

/// The typewriter after taking over the style, the width and the text length of
/// the text stroke its state refers to: the style without ranged attributes, the
/// width limit where the stroke has one, and cursors that fit the text. Without
/// such a text stroke nothing changes.
pub open spec fn synced_with(tw: TypewriterView, m: Map<u64, StrokeView>) -> TypewriterView {
    match state_stroke_key(tw.state) {
        Some(key) => match text_stroke_at(m, key) {
            Some(t) => TypewriterView {
                text_style: t.text_style.without_ranged_attributes(),
                max_width_enabled: tw.max_width_enabled,
                text_width: match t.text_style.max_width {
                    Some(w) => w,
                    None => tw.text_width,
                },
                state: clamp_state_cursors(tw.state, t.bytes().len() as usize),
            },
            None => tw,
        },
        None => tw,
    }
}

/// The style that the typewriter gives a new text stroke: its own style without
/// ranged attributes, limited to its text width when that is enabled.
pub open spec fn new_stroke_style(tw: TypewriterView) -> TextStyleView {
    TextStyleView {
        max_width: if tw.max_width_enabled {
            Some(tw.text_width)
        } else {
            tw.text_style.max_width
        },
        ..tw.text_style.without_ranged_attributes()
    }
}

/// The flags after a history point is recorded and the text was changed.
pub open spec fn edited_flags(resize: bool) -> WidgetFlags {
    WidgetFlags { redraw: true, resize, indicate_changed_store: true, ..recorded_flags() }
}

/// Copies `cursor` (and `selection_cursor`) to fit the text of `textstroke`.
pub fn update_cursors_for_textstroke(
    textstroke: &TextStroke,
    cursor: &mut TextCursor,
    selection_cursor: Option<&mut TextCursor>,
)
    ensures
        *final(cursor) == (TextCursor {
            offset: min_offset(old(cursor).offset, textstroke@.bytes().len() as usize),
            len: textstroke@.bytes().len() as usize,
        }),
        match selection_cursor {
            Some(sc) => *final(sc) == (TextCursor {
                offset: min_offset(sc.offset, textstroke@.bytes().len() as usize),
                len: textstroke@.bytes().len() as usize,
            }),
            None => true,
        },
{
    let len = textstroke.text_len();
    *cursor = cursor.clamped_to(len);
    if let Some(selection_cursor) = selection_cursor {
        *selection_cursor = selection_cursor.clamped_to(len);
    }
}

/// The strokes `after` are `before` with the text stroke `t` under `key` now
/// holding the UTF-8 text `bytes` and the style `style`, at its old position.
pub open spec fn text_stroke_rewritten(
    before: Map<u64, StrokeView>,
    after: Map<u64, StrokeView>,
    key: StrokeKey,
    t: TextStrokeView,
    bytes: Seq<u8>,
    style: TextStyleView,
) -> bool {
    &&& text_stroke_at(after, key) matches Some(t2)
    &&& after == before.insert(key.0, StrokeView::TextStroke(t2))
    &&& t2.bytes() == bytes
    &&& t2.text_style == style
    &&& t2.position == t.position
}

impl Default for Typewriter {
    fn default() -> (tw: Typewriter)
        ensures
            tw@ == (TypewriterView {
                text_style: default_text_style(),
                max_width_enabled: true,
                text_width: DEFAULT_TEXT_WIDTH_BITS,
                state: TypewriterState::Idle,
            }),
    {
        Typewriter {
            text_style: TextStyle::default(),
            max_width_enabled: true,
            text_width: DEFAULT_TEXT_WIDTH_BITS,
            state: TypewriterState::default(),
        }
    }
}

impl Typewriter {
    /// What the typewriter is doing.
    pub fn state(&self) -> (state: TypewriterState)
        ensures
            state == self@.state,
    {
        self.state
    }

    /// Puts the typewriter into `state`, as its pen events do.
    pub fn set_state(&mut self, state: TypewriterState)
        ensures
            final(self)@ == (TypewriterView { state, ..old(self)@ }),
    {
        self.state = state;
    }

    /// The range of the current selection, lower end first, and the key of its
    /// stroke, when the typewriter is selecting.
    pub fn selection_range(&self) -> (selection: Option<(Range<usize>, StrokeKey)>)
        ensures
            match selection {
                Some((range, key)) => selection_of(self@.state) == Some((range.start, range.end, key)),
                None => selection_of(self@.state) is None,
            },
    {
        if let TypewriterState::Selecting { stroke_key, cursor, selection_cursor, .. } = self.state {
            let cursor_index = cursor.cur_cursor();
            let selection_cursor_index = selection_cursor.cur_cursor();
            if cursor_index < selection_cursor_index {
                Some((Range { start: cursor_index, end: selection_cursor_index }, stroke_key))
            } else {
                Some((Range { start: selection_cursor_index, end: cursor_index }, stroke_key))
            }
        } else {
            None
        }
    }

    /// The selected text as clipboard content: its UTF-8 bytes and their MIME
    /// type, when text of a text stroke is selected.
    pub fn fetch_clipboard_content(&self, store: &StrokeStore) -> (content: Result<
        Option<(Vec<u8>, String)>,
        anyhow::Error,
    >)
        requires
            selection_fits(self@.state, store@),
        ensures
            content matches Ok(c) && match selection_of(self@.state) {
                Some((lo, hi, key)) => match text_stroke_at(store@, key) {
                    Some(t) => c matches Some((bytes, mime)) && bytes@ == t.bytes().subrange(
                        lo as int,
                        hi as int,
                    ) && mime@ == "text/plain;charset=utf-8"@,
                    None => c is None,
                },
                None => c is None,
            },
    {
        if let TypewriterState::Selecting { stroke_key, cursor, selection_cursor, .. } = self.state {
            if let Some(textstroke) = store.get_text_stroke(stroke_key) {
                let cursor_pos = cursor.cur_cursor();
                let selection_cursor_pos = selection_cursor.cur_cursor();
                // the range starts at the lower of the two cursors
                let pos_cursor_range = if cursor_pos < selection_cursor_pos {
                    Range { start: cursor_pos, end: selection_cursor_pos }
                } else {
                    Range { start: selection_cursor_pos, end: cursor_pos }
                };
                let selection_text = textstroke.get_text_slice_for_range(pos_cursor_range);
                let bytes = vstd::slice::slice_to_vec(selection_text.as_bytes());
                return Ok(Some((bytes, String::from_str("text/plain;charset=utf-8"))));
            }
        }
        Ok(None)
    }

    /// Takes over the style, the width limit and the text length of the text
    /// stroke that the state refers to (after that stroke was changed elsewhere).
    pub fn update_internal_state(&mut self, store: &StrokeStore)
        ensures
            final(self)@ == synced_with(old(self)@, store@),
    {
        match self.state {
            TypewriterState::Idle | TypewriterState::Start(_) => {},
            TypewriterState::Selecting { stroke_key, cursor, selection_cursor, finished } => {
                if let Some(textstroke) = store.get_text_stroke(stroke_key) {
                    self.take_style_of(textstroke);
                    let mut cursor = cursor;
                    let mut selection_cursor = selection_cursor;
                    update_cursors_for_textstroke(textstroke, &mut cursor, Some(&mut selection_cursor));
                    self.state = TypewriterState::Selecting { stroke_key, cursor, selection_cursor, finished };
                }
            },
            TypewriterState::Modifying { stroke_key, cursor, pen_down } => {
                if let Some(textstroke) = store.get_text_stroke(stroke_key) {
                    self.take_style_of(textstroke);
                    let mut cursor = cursor;
                    update_cursors_for_textstroke(textstroke, &mut cursor, None);
                    self.state = TypewriterState::Modifying { stroke_key, cursor, pen_down };
                }
            },
            TypewriterState::Translating { stroke_key, cursor, start_pos, current_pos } => {
                if let Some(textstroke) = store.get_text_stroke(stroke_key) {
                    self.take_style_of(textstroke);
                    let mut cursor = cursor;
                    update_cursors_for_textstroke(textstroke, &mut cursor, None);
                    self.state = TypewriterState::Translating { stroke_key, cursor, start_pos, current_pos };
                }
            },
            TypewriterState::AdjustTextWidth { stroke_key, cursor, start_text_width, start_pos, current_pos } => {
                if let Some(textstroke) = store.get_text_stroke(stroke_key) {
                    self.take_style_of(textstroke);
                    let mut cursor = cursor;
                    update_cursors_for_textstroke(textstroke, &mut cursor, None);
                    self.state = TypewriterState::AdjustTextWidth {
                        stroke_key,
                        cursor,
                        start_text_width,
                        start_pos,
                        current_pos,
                    };
                }
            },
        }
    }

    /// Takes over the style of `textstroke` without its ranged attributes, and
    /// its width limit where it has one.
    fn take_style_of(&mut self, textstroke: &TextStroke)
        ensures
            final(self)@ == (TypewriterView {
                text_style: textstroke@.text_style.without_ranged_attributes(),
                text_width: match textstroke@.text_style.max_width {
                    Some(w) => w,
                    None => old(self)@.text_width,
                },
                ..old(self)@
            }),
    {
        self.text_style = textstroke.text_style.duplicate();
        self.text_style.ranged_text_attributes.clear();
        if let Some(max_width) = textstroke.text_style.max_width {
            self.text_width = max_width;
        }
        assert(self.text_style@.ranged_text_attributes =~= Seq::<RangedTextAttributeView>::empty());
    }

    /// Starts a new text stroke with `text` at `pos` and edits it at its end.
    fn start_text_stroke(&mut self, text: String, pos: PointBits, store: &mut StrokeStore) -> (flags:
        WidgetFlags)
        requires
            old(store).can_insert(),
        ensures
            final(self)@.state matches TypewriterState::Modifying { stroke_key, cursor, pen_down }
                && !old(store)@.contains_key(stroke_key.0) && final(store)@ == old(store)@.insert(
                stroke_key.0,
                StrokeView::TextStroke(
                    TextStrokeView { text: text@, position: pos, text_style: new_stroke_style(old(self)@) },
                ),
            ) && cursor == (TextCursor {
                offset: utf8(text@).len() as usize,
                len: utf8(text@).len() as usize,
            }) && !pen_down,
            final(self)@ == (TypewriterView { state: final(self)@.state, ..old(self)@ }),
            edit_cursors_fit(final(self)@.state, final(store)@),
            final(store).history() == old(store).history().push(old(store)@),
            flags == (WidgetFlags { redraw: true, ..recorded_flags() }),
    {
        let text_len = byte_len(text.as_str());
        let mut widget_flags = WidgetFlags::default();
        widget_flags.merge_with_other(store.record());

        let mut text_style = self.text_style.duplicate();
        text_style.ranged_text_attributes.clear();
        assert(text_style@.ranged_text_attributes =~= Seq::<RangedTextAttributeView>::empty());
        if self.max_width_enabled {
            text_style.max_width = Some(self.text_width);
        }
        assert(text_style@ =~= new_stroke_style(self@));
        let textstroke = TextStroke::new(text, pos, text_style);
        let cursor = TextCursor::new(text_len, textstroke.text_len());
        let stroke_key = store.insert_stroke(Stroke::TextStroke(textstroke));
        self.state = TypewriterState::Modifying { stroke_key, cursor, pen_down: false };
        proof {
            lemma_ends_are_boundaries(text@);
        }
        widget_flags.redraw = true;
        widget_flags
    }

    /// Inserts `text`: into a new text stroke when the typewriter is idle (at
    /// `preferred_pos`, or else at `default_pos`) or about to start (at the start
    /// point), after the cursor when it modifies a text, and in place of the
    /// selection when it selects. A history point is recorded first in each of
    /// these states; while translating or adjusting the width nothing happens.
    pub fn insert_text(
        &mut self,
        text: String,
        preferred_pos: Option<PointBits>,
        default_pos: PointBits,
        store: &mut StrokeStore,
    ) -> (flags: WidgetFlags)
        requires
            old(self)@.state is Idle || old(self)@.state is Start ==> old(store).can_insert(),
            edit_cursors_fit(old(self)@.state, old(store)@),
        ensures
            edit_cursors_fit(final(self)@.state, final(store)@),
            final(self)@.text_style == old(self)@.text_style,
            final(self)@.max_width_enabled == old(self)@.max_width_enabled,
            final(self)@.text_width == old(self)@.text_width,
            match old(self)@.state {
                TypewriterState::Translating { .. } | TypewriterState::AdjustTextWidth { .. } => {
                    &&& final(self)@.state == old(self)@.state
                    &&& final(store)@ == old(store)@
                    &&& final(store).history() == old(store).history()
                    &&& flags == no_flags()
                },
                _ => final(store).history() == old(store).history().push(old(store)@),
            },
            match old(self)@.state {
                TypewriterState::Idle | TypewriterState::Start(_) => {
                    let pos = match old(self)@.state {
                        TypewriterState::Start(p) => p,
                        _ => match preferred_pos {
                            Some(p) => p,
                            None => default_pos,
                        },
                    };
                    let n = utf8(text@).len() as usize;
                    &&& final(self)@.state matches TypewriterState::Modifying { stroke_key, cursor, pen_down }
                    &&& !old(store)@.contains_key(stroke_key.0)
                    &&& final(store)@ == old(store)@.insert(
                        stroke_key.0,
                        StrokeView::TextStroke(
                            TextStrokeView {
                                text: text@,
                                position: pos,
                                text_style: new_stroke_style(old(self)@),
                            },
                        ),
                    )
                    &&& cursor == TextCursor { offset: n, len: n }
                    &&& !pen_down
                    &&& flags == (WidgetFlags { redraw: true, ..recorded_flags() })
                },
                TypewriterState::Modifying { stroke_key, cursor, pen_down } => match text_stroke_at(
                    old(store)@,
                    stroke_key,
                ) {
                    Some(t) => {
                        let (bytes, style) = t.replaced(cursor.offset, cursor.offset, text@);
                        &&& text_stroke_rewritten(old(store)@, final(store)@, stroke_key, t, bytes, style)
                        &&& final(self)@.state == TypewriterState::Modifying {
                            stroke_key,
                            cursor: TextCursor {
                                offset: (cursor.offset + utf8(text@).len()) as usize,
                                len: bytes.len() as usize,
                            },
                            pen_down,
                        }
                        &&& flags == edited_flags(true)
                    },
                    None => {
                        &&& final(store)@ == old(store)@
                        &&& final(self)@.state == old(self)@.state
                        &&& flags == recorded_flags()
                    },
                },
                TypewriterState::Selecting { stroke_key, cursor, selection_cursor, .. } => match text_stroke_at(
                    old(store)@,
                    stroke_key,
                ) {
                    Some(t) => {
                        let (lo, hi) = ordered(cursor.offset, selection_cursor.offset);
                        let (bytes, style) = t.replaced(lo, hi, text@);
                        &&& text_stroke_rewritten(old(store)@, final(store)@, stroke_key, t, bytes, style)
                        &&& final(self)@.state == TypewriterState::Modifying {
                            stroke_key,
                            cursor: TextCursor {
                                offset: (lo + utf8(text@).len()) as usize,
                                len: bytes.len() as usize,
                            },
                            pen_down: false,
                        }
                        &&& flags == edited_flags(true)
                    },
                    None => {
                        &&& final(store)@ == old(store)@
                        &&& final(self)@.state == old(self)@.state
                        &&& flags == recorded_flags()
                    },
                },
                _ => true,
            },
    {
        let pos = match preferred_pos {
            Some(p) => p,
            None => default_pos,
        };
        match self.state {
            TypewriterState::Idle => self.start_text_stroke(text, pos, store),
            TypewriterState::Start(start) => self.start_text_stroke(text, start, store),
            TypewriterState::Modifying { stroke_key, cursor, pen_down } => {
                let mut widget_flags = WidgetFlags::default();
                widget_flags.merge_with_other(store.record());
                if let Some(textstroke) = store.get_text_stroke(stroke_key) {
                    let mut textstroke = textstroke.duplicate();
                    let mut cursor = cursor;
                    textstroke.insert_text_after_cursor(text.as_str(), &mut cursor);
                    store.replace_with_text_stroke(stroke_key, textstroke);
                    self.state = TypewriterState::Modifying { stroke_key, cursor, pen_down };
                    widget_flags.redraw = true;
                    widget_flags.resize = true;
                    widget_flags.indicate_changed_store = true;
                }
                widget_flags
            },
            TypewriterState::Selecting { stroke_key, cursor, selection_cursor, .. } => {
                let mut widget_flags = WidgetFlags::default();
                widget_flags.merge_with_other(store.record());
                if let Some(textstroke) = store.get_text_stroke(stroke_key) {
                    let mut textstroke = textstroke.duplicate();
                    let mut cursor = cursor;
                    let mut selection_cursor = selection_cursor;
                    textstroke.replace_text_between_selection_cursors(
                        &mut cursor,
                        &mut selection_cursor,
                        text.as_str(),
                    );
                    store.replace_with_text_stroke(stroke_key, textstroke);
                    self.state = TypewriterState::Modifying { stroke_key, cursor, pen_down: false };
                    widget_flags.resize = true;
                    widget_flags.redraw = true;
                    widget_flags.indicate_changed_store = true;
                }
                widget_flags
            },
            TypewriterState::Translating { .. } | TypewriterState::AdjustTextWidth { .. } => {
                WidgetFlags::default()
            },
        }
    }

    /// Changes the style of the text stroke that the state refers to by
    /// `modify_func`, after recording a history point.
    pub fn change_text_style_in_modifying_stroke<F>(
        &mut self,
        modify_func: F,
        store: &mut StrokeStore,
    ) -> (flags: WidgetFlags) where F: FnOnce(&mut TextStyle)
        requires
            forall|s: &mut TextStyle| modify_func.requires((s,)),
        ensures
            final(self)@ == old(self)@,
            match state_stroke_key(old(self)@.state) {
                Some(key) => {
                    &&& final(store).history() == old(store).history().push(old(store)@)
                    &&& match text_stroke_at(old(store)@, key) {
                        Some(t) => exists|s: &mut TextStyle|
                            {
                                &&& (*s)@ == t.text_style
                                &&& #[trigger] modify_func.ensures((s,), ())
                                &&& final(store)@ == old(store)@.insert(
                                    key.0,
                                    StrokeView::TextStroke(TextStrokeView { text_style: (*final(s))@, ..t }),
                                )
                            } && flags == edited_flags(false),
                        None => final(store)@ == old(store)@ && flags == recorded_flags(),
                    }
                },
                None => {
                    &&& final(store)@ == old(store)@
                    &&& final(store).history() == old(store).history()
                    &&& flags == no_flags()
                },
            },
    {
        let mut widget_flags = WidgetFlags::default();
        if let Some(stroke_key) = self.stroke_key() {
            widget_flags.merge_with_other(store.record());
            if let Some(textstroke) = store.get_text_stroke(stroke_key) {
                let mut textstroke = textstroke.duplicate();
                modify_func(&mut textstroke.text_style);
                store.replace_with_text_stroke(stroke_key, textstroke);
                widget_flags.redraw = true;
                widget_flags.indicate_changed_store = true;
            }
        }
        widget_flags
    }

    /// Removes the ranged attributes that overlap the selection from its text
    /// stroke, after recording a history point.
    pub fn remove_text_attributes_current_selection(&mut self, store: &mut StrokeStore) -> (flags:
        WidgetFlags)
        ensures
            final(self)@ == old(self)@,
            match selection_of(old(self)@.state) {
                Some((lo, hi, key)) => {
                    &&& final(store).history() == old(store).history().push(old(store)@)
                    &&& match text_stroke_at(old(store)@, key) {
                        Some(t) => {
                            &&& final(store)@ == old(store)@.insert(
                                key.0,
                                StrokeView::TextStroke(
                                    TextStrokeView {
                                        text_style: TextStyleView {
                                            ranged_text_attributes: attributes_outside(
                                                t.text_style.ranged_text_attributes,
                                                lo,
                                                hi,
                                            ),
                                            ..t.text_style
                                        },
                                        ..t
                                    },
                                ),
                            )
                            &&& flags == edited_flags(false)
                        },
                        None => final(store)@ == old(store)@ && flags == recorded_flags(),
                    }
                },
                None => {
                    &&& final(store)@ == old(store)@
                    &&& final(store).history() == old(store).history()
                    &&& flags == no_flags()
                },
            },
    {
        let mut widget_flags = WidgetFlags::default();
        if let Some((selection_range, stroke_key)) = self.selection_range() {
            widget_flags.merge_with_other(store.record());
            if let Some(textstroke) = store.get_text_stroke(stroke_key) {
                let mut textstroke = textstroke.duplicate();
                textstroke.remove_attrs_for_range(selection_range);
                store.replace_with_text_stroke(stroke_key, textstroke);
                widget_flags.redraw = true;
                widget_flags.indicate_changed_store = true;
            }
        }
        widget_flags
    }

    /// Adds `text_attribute` for the selection to its text stroke, after
    /// recording a history point.
    pub fn add_text_attribute_current_selection(
        &mut self,
        text_attribute: TextAttribute,
        store: &mut StrokeStore,
    ) -> (flags: WidgetFlags)
        ensures
            final(self)@ == old(self)@,
            match selection_of(old(self)@.state) {
                Some((lo, hi, key)) => {
                    &&& final(store).history() == old(store).history().push(old(store)@)
                    &&& match text_stroke_at(old(store)@, key) {
                        Some(t) => {
                            &&& final(store)@ == old(store)@.insert(
                                key.0,
                                StrokeView::TextStroke(
                                    TextStrokeView {
                                        text_style: TextStyleView {
                                            ranged_text_attributes: t.text_style.ranged_text_attributes.push(
                                                RangedTextAttributeView {
                                                    attribute: text_attribute@,
                                                    start: lo,
                                                    end: hi,
                                                },
                                            ),
                                            ..t.text_style
                                        },
                                        ..t
                                    },
                                ),
                            )
                            &&& flags == edited_flags(false)
                        },
                        None => final(store)@ == old(store)@ && flags == recorded_flags(),
                    }
                },
                None => {
                    &&& final(store)@ == old(store)@
                    &&& final(store).history() == old(store).history()
                    &&& flags == no_flags()
                },
            },
    {
        let mut widget_flags = WidgetFlags::default();
        if let Some((selection_range, stroke_key)) = self.selection_range() {
            widget_flags.merge_with_other(store.record());
            if let Some(textstroke) = store.get_text_stroke(stroke_key) {
                let mut textstroke = textstroke.duplicate();
                let ghost before = textstroke@;
                textstroke.text_style.ranged_text_attributes.push(
                    RangedTextAttribute { attribute: text_attribute, range: selection_range },
                );
                assert(textstroke@.text_style.ranged_text_attributes =~= before.text_style.ranged_text_attributes.push(
                    textstroke.text_style.ranged_text_attributes@.last()@,
                ));
                store.replace_with_text_stroke(stroke_key, textstroke);
                widget_flags.redraw = true;
                widget_flags.indicate_changed_store = true;
            }
        }
        widget_flags
    }

    /// The key of the stroke that the state refers to, if any.
    fn stroke_key(&self) -> (key: Option<StrokeKey>)
        ensures
            key == state_stroke_key(self@.state),
    {
        match self.state {
            TypewriterState::Idle | TypewriterState::Start(_) => None,
            TypewriterState::Modifying { stroke_key, .. } => Some(stroke_key),
            TypewriterState::Selecting { stroke_key, .. } => Some(stroke_key),
            TypewriterState::Translating { stroke_key, .. } => Some(stroke_key),
            TypewriterState::AdjustTextWidth { stroke_key, .. } => Some(stroke_key),
        }
    }

    /// Whether the cursors that editing reads lie on character boundaries of
    /// their text stroke, as inserting text needs.
    pub fn edit_cursors_fit_text(&self, store: &StrokeStore) -> (fits: bool)
        ensures
            fits == edit_cursors_fit(self@.state, store@),
    {
        match self.state {
            TypewriterState::Modifying { stroke_key, cursor, .. } => match store.get_text_stroke(stroke_key) {
                Some(t) => t.text.as_str().is_char_boundary(cursor.offset),
                None => true,
            },
            TypewriterState::Selecting { stroke_key, cursor, selection_cursor, .. } => match store.get_text_stroke(stroke_key) {
                Some(t) => t.text.as_str().is_char_boundary(cursor.offset) && t.text.as_str().is_char_boundary(
                    selection_cursor.offset,
                ),
                None => true,
            },
            _ => true,
        }
    }

    /// Whether the ends of the selection lie on character boundaries of its
    /// text stroke, as fetching clipboard content needs.
    pub fn selection_fits_text(&self, store: &StrokeStore) -> (fits: bool)
        ensures
            fits == selection_fits(self@.state, store@),
    {
        match self.state {
            TypewriterState::Selecting { .. } => self.edit_cursors_fit_text(store),
            _ => true,
        }
    }
}

} // verus!
