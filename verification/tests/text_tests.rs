use rnote_typewriter::cursor::TextCursor;
use rnote_typewriter::store::{Stroke, StrokeKey, StrokeStore, WidgetFlags};
use rnote_typewriter::text_buffer::{byte_len, insert_at, replace_between, slice_between};
use rnote_typewriter::text_stroke::{PointBits, TextStroke};
use rnote_typewriter::text_style::{
    attribute_list_outside, remap_attribute_list, remap_position_exec, ColorBits, FontStyle,
    RangedTextAttribute, TextAttribute, TextStyle,
};
use rnote_typewriter::typewriter::update_cursors_for_textstroke;
use rnote_typewriter::workspace_folder::folder_name_acceptable;

fn style() -> TextStyle {
    TextStyle {
        font_family: String::from("mono"),
        font_size: 10.0f64.to_bits(),
        font_weight: 400,
        font_style: FontStyle::Italic,
        color: ColorBits { r: 0, g: 0, b: 0, a: 0 },
        max_width: None,
        ranged_text_attributes: Vec::new(),
    }
}

fn italic(start: usize, end: usize) -> RangedTextAttribute {
    RangedTextAttribute { attribute: TextAttribute::Style(FontStyle::Italic), range: start..end }
}

fn ranges(attrs: &[RangedTextAttribute]) -> Vec<std::ops::Range<usize>> {
    attrs.iter().map(|a| a.range.clone()).collect()
}

#[test]
fn byte_len_counts_utf8_bytes() {
    assert_eq!(byte_len(""), 0);
    assert_eq!(byte_len("abc"), 3);
    assert_eq!(byte_len("é"), 2);
    assert_eq!(byte_len("€"), 3);
    assert_eq!(byte_len("𝄞"), 4);
}

#[test]
fn buffer_edits_at_boundaries() {
    assert_eq!(insert_at("héllo", 3, "XY"), "héXYllo");
    assert_eq!(insert_at("abc", 0, "<"), "<abc");
    assert_eq!(insert_at("abc", 3, ">"), "abc>");
    assert_eq!(replace_between("h€llo", 1, 4, "e"), "hello");
    assert_eq!(replace_between("abc", 1, 1, ""), "abc");
    assert_eq!(slice_between("h€llo", 1, 4), "€");
    assert_eq!(slice_between("abc", 2, 2), "");
}

#[test]
fn positions_remap_around_a_replacement() {
    // replace bytes 2..5 by 1 byte
    assert_eq!(remap_position_exec(1, 2, 5, 1), 1);
    assert_eq!(remap_position_exec(2, 2, 5, 1), 2);
    assert_eq!(remap_position_exec(3, 2, 5, 1), 3);
    assert_eq!(remap_position_exec(5, 2, 5, 1), 3);
    assert_eq!(remap_position_exec(8, 2, 5, 1), 6);
    // insertion of 4 bytes at 2
    assert_eq!(remap_position_exec(2, 2, 2, 4), 2);
    assert_eq!(remap_position_exec(3, 2, 2, 4), 7);
    // held at the largest position
    assert_eq!(remap_position_exec(usize::MAX, 0, 0, 1), usize::MAX);
    let attrs = vec![italic(0, 2), italic(2, 6), italic(7, 9)];
    assert_eq!(ranges(&remap_attribute_list(&attrs, 2, 5, 1)), vec![0..2, 2..4, 5..7]);
}

#[test]
fn attributes_outside_selection() {
    let attrs = vec![italic(0, 2), italic(1, 3), italic(3, 4), italic(5, 5)];
    assert_eq!(ranges(&attribute_list_outside(&attrs, 2, 3)), vec![0..2, 3..4, 5..5]);
    // an empty selection overlaps the ranges that strictly surround it
    assert_eq!(ranges(&attribute_list_outside(&attrs, 1, 1)), vec![1..3, 3..4, 5..5]);
}

#[test]
fn text_stroke_edits_move_cursors() {
    let mut t = TextStroke::new(String::from("abcd"), PointBits { x: 1, y: 2 }, style());
    let mut cursor = TextCursor::new(2, 4);
    t.insert_text_after_cursor("ü", &mut cursor);
    assert_eq!(t.text, "abücd");
    assert_eq!(cursor, TextCursor::new(4, 6));
    assert_eq!(t.text_len(), 6);

    let mut a = TextCursor::new(5, 6);
    let mut b = TextCursor::new(1, 6);
    t.replace_text_between_selection_cursors(&mut a, &mut b, "-");
    assert_eq!(t.text, "a-d");
    assert_eq!(a, TextCursor::new(2, 3));
    assert_eq!(b, TextCursor::new(2, 3));
    assert_eq!(t.get_text_slice_for_range(1..2), "-");
    assert_eq!(t.position, PointBits { x: 1, y: 2 });
}

#[test]
fn text_stroke_remove_attrs_for_range() {
    let mut s = style();
    s.ranged_text_attributes = vec![italic(0, 1), italic(1, 3)];
    let mut t = TextStroke::new(String::from("abcd"), PointBits { x: 0, y: 0 }, s);
    t.remove_attrs_for_range(2..4);
    assert_eq!(ranges(&t.text_style.ranged_text_attributes), vec![0..1]);
    assert_eq!(t.text, "abcd");
}

#[test]
fn cursors_clamp_to_text() {
    assert_eq!(TextCursor::new(9, 9).clamped_to(4), TextCursor::new(4, 4));
    assert_eq!(TextCursor::new(2, 9).clamped_to(4), TextCursor::new(2, 4));
    assert_eq!(TextCursor::new(7, 3).cur_cursor(), 7);
    let t = TextStroke::new(String::from("ab"), PointBits { x: 0, y: 0 }, style());
    let mut c = TextCursor::new(5, 5);
    let mut s = TextCursor::new(1, 5);
    update_cursors_for_textstroke(&t, &mut c, Some(&mut s));
    assert_eq!(c, TextCursor::new(2, 2));
    assert_eq!(s, TextCursor::new(1, 2));
    let mut c = TextCursor::new(0, 7);
    update_cursors_for_textstroke(&t, &mut c, None);
    assert_eq!(c, TextCursor::new(0, 2));
}

#[test]
fn widget_flags_merge() {
    let mut flags = WidgetFlags { redraw: true, hide_undo: Some(true), ..WidgetFlags::default() };
    flags.merge_with_other(WidgetFlags {
        resize: true,
        hide_undo: Some(false),
        hide_redo: None,
        ..WidgetFlags::default()
    });
    assert_eq!(
        flags,
        WidgetFlags {
            redraw: true,
            resize: true,
            indicate_changed_store: false,
            hide_undo: Some(false),
            hide_redo: None,
        }
    );
}

#[test]
fn store_hands_out_fresh_keys_and_records() {
    let mut store = StrokeStore::new();
    assert!(store.has_free_key());
    let a = store.insert_stroke(Stroke::Other);
    let b = store.insert_stroke(Stroke::TextStroke(TextStroke::new(
        String::from("x"),
        PointBits { x: 0, y: 0 },
        style(),
    )));
    assert_ne!(a, b);
    assert!(store.get_stroke_ref(a).is_some());
    assert!(store.get_text_stroke(a).is_none());
    assert_eq!(store.get_text_stroke(b).unwrap().text, "x");
    assert!(store.get_stroke_ref(StrokeKey(99)).is_none());
    assert_eq!(store.history_len(), 0);
    let flags = store.record();
    assert_eq!(flags.hide_undo, Some(false));
    assert_eq!(flags.hide_redo, Some(true));
    assert!(!flags.redraw);
    assert_eq!(store.history_len(), 1);
}

#[test]
fn style_copies_are_equal() {
    let mut s = style();
    s.ranged_text_attributes.push(RangedTextAttribute {
        attribute: TextAttribute::FontFamily(String::from("serif")),
        range: 0..3,
    });
    let c = s.duplicate();
    assert_eq!(c.font_family, "mono");
    assert_eq!(c.ranged_text_attributes.len(), 1);
    assert!(matches!(&c.ranged_text_attributes[0].attribute, TextAttribute::FontFamily(f) if f == "serif"));
    let d = TextStyle::default();
    assert_eq!(d.font_family, "serif");
    assert_eq!(d.font_weight, 500);
}

#[test]
fn new_folder_names() {
    assert!(folder_name_acceptable("notes", false));
    assert!(!folder_name_acceptable("notes", true));
    assert!(!folder_name_acceptable("", false));
    assert!(!folder_name_acceptable("", true));
}
