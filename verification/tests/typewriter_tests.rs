use rnote_typewriter::drawing::{DrawPlan, NodeState};
use rnote_typewriter::cursor::TextCursor;
use rnote_typewriter::store::{Stroke, StrokeKey, StrokeStore, WidgetFlags};
use rnote_typewriter::text_stroke::{PointBits, TextStroke};
use rnote_typewriter::text_style::{
    ColorBits, FontStyle, RangedTextAttribute, TextAttribute, TextStyle,
};
use rnote_typewriter::typewriter::{Typewriter, TypewriterState};

fn point(x: f64, y: f64) -> PointBits {
    PointBits { x: x.to_bits(), y: y.to_bits() }
}

fn plain_style() -> TextStyle {
    TextStyle {
        font_family: String::from("sans"),
        font_size: 12.0f64.to_bits(),
        font_weight: 400,
        font_style: FontStyle::Regular,
        color: ColorBits { r: 0, g: 0, b: 0, a: 1.0f64.to_bits() },
        max_width: None,
        ranged_text_attributes: Vec::new(),
    }
}

fn bold(start: usize, end: usize) -> RangedTextAttribute {
    RangedTextAttribute { attribute: TextAttribute::FontWeight(700), range: start..end }
}

fn store_with_text(text: &str) -> (StrokeStore, StrokeKey) {
    let mut store = StrokeStore::new();
    let key = store.insert_stroke(Stroke::TextStroke(TextStroke::new(
        String::from(text),
        point(10.0, 20.0),
        plain_style(),
    )));
    (store, key)
}

fn text_of(store: &StrokeStore, key: StrokeKey) -> String {
    store.get_text_stroke(key).expect("a text stroke").text.clone()
}

fn modifying(key: StrokeKey, offset: usize, len: usize) -> TypewriterState {
    TypewriterState::Modifying { stroke_key: key, cursor: TextCursor::new(offset, len), pen_down: false }
}

fn selecting(key: StrokeKey, a: usize, b: usize, len: usize) -> TypewriterState {
    TypewriterState::Selecting {
        stroke_key: key,
        cursor: TextCursor::new(a, len),
        selection_cursor: TextCursor::new(b, len),
        finished: true,
    }
}

fn recorded() -> WidgetFlags {
    WidgetFlags { hide_undo: Some(false), hide_redo: Some(true), ..WidgetFlags::default() }
}

#[test]
fn default_typewriter_is_idle_with_width_600() {
    let tw = Typewriter::default();
    assert_eq!(tw.state(), TypewriterState::Idle);
    assert!(tw.max_width_enabled);
    assert_eq!(f64::from_bits(tw.text_width), 600.0);
    assert_eq!(tw.text_style.font_family, "serif");
    assert_eq!(f64::from_bits(tw.text_style.font_size), 32.0);
    assert_eq!(tw.text_style.max_width, None);
    assert!(tw.text_style.ranged_text_attributes.is_empty());
    assert_eq!(TypewriterState::default(), TypewriterState::Idle);
}

#[test]
fn idle_insert_creates_stroke_at_preferred_position() {
    let mut store = StrokeStore::new();
    let mut tw = Typewriter::default();
    tw.text_style.ranged_text_attributes.push(bold(0, 1));
    let flags = tw.insert_text(String::from("hello"), Some(point(1.0, 2.0)), point(7.0, 8.0), &mut store);
    assert_eq!(flags, WidgetFlags { redraw: true, ..recorded() });
    assert_eq!(store.history_len(), 1);
    match tw.state() {
        TypewriterState::Modifying { stroke_key, cursor, pen_down } => {
            assert_eq!(cursor, TextCursor::new(5, 5));
            assert!(!pen_down);
            let t = store.get_text_stroke(stroke_key).unwrap();
            assert_eq!(t.text, "hello");
            assert_eq!(t.position, point(1.0, 2.0));
            // the new stroke is limited to the typewriter's width and carries no ranged attribute
            assert_eq!(t.text_style.max_width, Some(600.0f64.to_bits()));
            assert!(t.text_style.ranged_text_attributes.is_empty());
            assert_eq!(t.text_style.font_family, "serif");
        }
        other => panic!("unexpected state {:?}", other),
    }
    // the typewriter's own style keeps its attributes
    assert_eq!(tw.text_style.ranged_text_attributes.len(), 1);
}

#[test]
fn idle_insert_without_preferred_position_uses_default() {
    let mut store = StrokeStore::new();
    let mut tw = Typewriter::default();
    tw.max_width_enabled = false;
    tw.insert_text(String::from("x"), None, point(7.0, 8.0), &mut store);
    match tw.state() {
        TypewriterState::Modifying { stroke_key, .. } => {
            let t = store.get_text_stroke(stroke_key).unwrap();
            assert_eq!(t.position, point(7.0, 8.0));
            assert_eq!(t.text_style.max_width, None);
        }
        other => panic!("unexpected state {:?}", other),
    }
}

#[test]
fn start_insert_uses_start_position() {
    let mut store = StrokeStore::new();
    let mut tw = Typewriter::default();
    tw.set_state(TypewriterState::Start(point(3.0, 4.0)));
    tw.insert_text(String::from("héllo"), Some(point(1.0, 2.0)), point(7.0, 8.0), &mut store);
    match tw.state() {
        TypewriterState::Modifying { stroke_key, cursor, .. } => {
            // "héllo" takes 6 bytes
            assert_eq!(cursor, TextCursor::new(6, 6));
            assert_eq!(store.get_text_stroke(stroke_key).unwrap().position, point(3.0, 4.0));
        }
        other => panic!("unexpected state {:?}", other),
    }
}

#[test]
fn modifying_insert_goes_after_cursor() {
    let (mut store, key) = store_with_text("ac");
    let mut tw = Typewriter::default();
    tw.set_state(modifying(key, 1, 2));
    let flags = tw.insert_text(String::from("b"), None, point(0.0, 0.0), &mut store);
    assert_eq!(text_of(&store, key), "abc");
    assert_eq!(tw.state(), modifying(key, 2, 3));
    assert_eq!(
        flags,
        WidgetFlags { redraw: true, resize: true, indicate_changed_store: true, ..recorded() }
    );
    assert_eq!(store.history_len(), 1);
}

#[test]
fn modifying_insert_counts_bytes_of_multibyte_text() {
    let (mut store, key) = store_with_text("añb");
    let mut tw = Typewriter::default();
    // after "añ" (3 bytes)
    tw.set_state(modifying(key, 3, 4));
    tw.insert_text(String::from("€"), None, point(0.0, 0.0), &mut store);
    assert_eq!(text_of(&store, key), "añ€b");
    assert_eq!(tw.state(), modifying(key, 6, 7));
}

#[test]
fn insert_moves_attributes_after_the_cursor() {
    let (mut store, key) = store_with_text("abcd");
    let mut t = store.get_text_stroke(key).unwrap().duplicate();
    t.text_style.ranged_text_attributes.push(bold(1, 3));
    t.text_style.ranged_text_attributes.push(bold(3, 4));
    store.replace_with_text_stroke(key, t);
    let mut tw = Typewriter::default();
    tw.set_state(modifying(key, 1, 4));
    tw.insert_text(String::from("XY"), None, point(0.0, 0.0), &mut store);
    let t = store.get_text_stroke(key).unwrap();
    assert_eq!(t.text, "aXYbcd");
    let ranges: Vec<_> = t.text_style.ranged_text_attributes.iter().map(|a| a.range.clone()).collect();
    // a range starting at the cursor keeps its start and grows with the text typed into it
    assert_eq!(ranges, vec![1..5, 5..6]);
}

#[test]
fn selecting_insert_replaces_selection() {
    let (mut store, key) = store_with_text("abcd");
    let mut tw = Typewriter::default();
    tw.set_state(selecting(key, 3, 1, 4));
    let flags = tw.insert_text(String::from("Z"), None, point(0.0, 0.0), &mut store);
    assert_eq!(text_of(&store, key), "aZd");
    assert_eq!(tw.state(), modifying(key, 2, 3));
    assert_eq!(
        flags,
        WidgetFlags { redraw: true, resize: true, indicate_changed_store: true, ..recorded() }
    );
}

#[test]
fn selecting_insert_of_nothing_deletes_selection() {
    let (mut store, key) = store_with_text("abcd");
    let mut tw = Typewriter::default();
    tw.set_state(selecting(key, 1, 3, 4));
    tw.insert_text(String::new(), None, point(0.0, 0.0), &mut store);
    assert_eq!(text_of(&store, key), "ad");
    assert_eq!(tw.state(), modifying(key, 1, 2));
}

#[test]
fn translating_insert_does_nothing() {
    let (mut store, key) = store_with_text("abc");
    let mut tw = Typewriter::default();
    let state = TypewriterState::Translating {
        stroke_key: key,
        cursor: TextCursor::new(1, 3),
        start_pos: point(0.0, 0.0),
        current_pos: point(1.0, 1.0),
    };
    tw.set_state(state);
    let flags = tw.insert_text(String::from("x"), None, point(0.0, 0.0), &mut store);
    assert_eq!(flags, WidgetFlags::default());
    assert_eq!(text_of(&store, key), "abc");
    assert_eq!(tw.state(), state);
    assert_eq!(store.history_len(), 0);

    let adjusting = TypewriterState::AdjustTextWidth {
        stroke_key: key,
        cursor: TextCursor::new(1, 3),
        start_text_width: 100.0f64.to_bits(),
        start_pos: point(0.0, 0.0),
        current_pos: point(1.0, 1.0),
    };
    tw.set_state(adjusting);
    assert_eq!(tw.insert_text(String::from("x"), None, point(0.0, 0.0), &mut store), WidgetFlags::default());
    assert_eq!(text_of(&store, key), "abc");
}

#[test]
fn modifying_insert_into_non_text_stroke_only_records() {
    let mut store = StrokeStore::new();
    let key = store.insert_stroke(Stroke::Other);
    let mut tw = Typewriter::default();
    tw.set_state(modifying(key, 0, 0));
    let flags = tw.insert_text(String::from("x"), None, point(0.0, 0.0), &mut store);
    assert_eq!(flags, recorded());
    assert_eq!(store.history_len(), 1);
    assert!(store.get_text_stroke(key).is_none());
    assert_eq!(tw.state(), modifying(key, 0, 0));
}

#[test]
fn typing_twice_equals_typing_the_concatenation() {
    let (mut store_a, key_a) = store_with_text("ac");
    let mut tw_a = Typewriter::default();
    tw_a.set_state(modifying(key_a, 1, 2));
    tw_a.insert_text(String::from("b"), None, point(0.0, 0.0), &mut store_a);
    tw_a.insert_text(String::from("ü"), None, point(0.0, 0.0), &mut store_a);

    let (mut store_b, key_b) = store_with_text("ac");
    let mut tw_b = Typewriter::default();
    tw_b.set_state(modifying(key_b, 1, 2));
    tw_b.insert_text(String::from("bü"), None, point(0.0, 0.0), &mut store_b);

    assert_eq!(text_of(&store_a, key_a), "abüc");
    assert_eq!(text_of(&store_a, key_a), text_of(&store_b, key_b));
    assert_eq!(tw_a.state(), tw_b.state());
    assert_eq!(tw_a.state(), modifying(key_a, 4, 5));
}

#[test]
fn typing_nothing_changes_nothing() {
    let (mut store, key) = store_with_text("abc");
    let mut tw = Typewriter::default();
    tw.set_state(modifying(key, 2, 3));
    tw.insert_text(String::new(), None, point(0.0, 0.0), &mut store);
    assert_eq!(text_of(&store, key), "abc");
    assert_eq!(tw.state(), modifying(key, 2, 3));
}

#[test]
fn selection_range_is_ordered() {
    let key = StrokeKey(7);
    let mut tw = Typewriter::default();
    assert!(tw.selection_range().is_none());
    tw.set_state(selecting(key, 5, 2, 9));
    assert_eq!(tw.selection_range(), Some((2..5, key)));
    tw.set_state(selecting(key, 2, 5, 9));
    assert_eq!(tw.selection_range(), Some((2..5, key)));
    tw.set_state(modifying(key, 2, 9));
    assert!(tw.selection_range().is_none());
}

#[test]
fn clipboard_holds_selected_bytes() {
    let (store, key) = store_with_text("grüße");
    let mut tw = Typewriter::default();
    // "rüß" spans bytes 1..6
    tw.set_state(selecting(key, 6, 1, 7));
    let content = tw.fetch_clipboard_content(&store).unwrap();
    let (bytes, mime) = content.expect("a selection");
    assert_eq!(bytes, "rüß".as_bytes().to_vec());
    assert_eq!(mime, "text/plain;charset=utf-8");

    tw.set_state(selecting(key, 1, 6, 7));
    assert_eq!(tw.fetch_clipboard_content(&store).unwrap().unwrap().0, "rüß".as_bytes().to_vec());

    tw.set_state(modifying(key, 1, 7));
    assert!(tw.fetch_clipboard_content(&store).unwrap().is_none());
}

#[test]
fn clipboard_is_empty_without_text_stroke() {
    let mut store = StrokeStore::new();
    let key = store.insert_stroke(Stroke::Other);
    let mut tw = Typewriter::default();
    tw.set_state(selecting(key, 0, 0, 0));
    assert!(tw.fetch_clipboard_content(&store).unwrap().is_none());
}

#[test]
fn update_internal_state_takes_over_stroke() {
    let (mut store, key) = store_with_text("abc");
    let mut t = store.get_text_stroke(key).unwrap().duplicate();
    t.text_style.max_width = Some(250.0f64.to_bits());
    t.text_style.ranged_text_attributes.push(bold(0, 2));
    store.replace_with_text_stroke(key, t);

    let mut tw = Typewriter::default();
    tw.set_state(selecting(key, 9, 1, 9));
    tw.update_internal_state(&store);
    assert_eq!(tw.text_style.font_family, "sans");
    assert!(tw.text_style.ranged_text_attributes.is_empty());
    assert_eq!(f64::from_bits(tw.text_width), 250.0);
    assert_eq!(tw.state(), selecting(key, 3, 1, 3));

    // a second update changes nothing more
    tw.update_internal_state(&store);
    assert_eq!(tw.state(), selecting(key, 3, 1, 3));
    assert_eq!(f64::from_bits(tw.text_width), 250.0);
}

#[test]
fn update_internal_state_keeps_width_without_limit() {
    let (store, key) = store_with_text("abcdef");
    let mut tw = Typewriter::default();
    tw.set_state(modifying(key, 4, 2));
    tw.update_internal_state(&store);
    assert_eq!(f64::from_bits(tw.text_width), 600.0);
    assert_eq!(tw.state(), modifying(key, 4, 6));

    let mut idle = Typewriter::default();
    idle.update_internal_state(&store);
    assert_eq!(idle.state(), TypewriterState::Idle);
    assert_eq!(idle.text_style.font_family, "serif");
}

#[test]
fn change_text_style_applies_closure() {
    let (mut store, key) = store_with_text("abc");
    let mut tw = Typewriter::default();
    tw.set_state(modifying(key, 1, 3));
    let flags = tw.change_text_style_in_modifying_stroke(
        |style: &mut TextStyle| style.font_size = 40.0f64.to_bits(),
        &mut store,
    );
    assert_eq!(flags, WidgetFlags { redraw: true, indicate_changed_store: true, ..recorded() });
    let t = store.get_text_stroke(key).unwrap();
    assert_eq!(f64::from_bits(t.text_style.font_size), 40.0);
    assert_eq!(t.text, "abc");
    assert_eq!(store.history_len(), 1);

    let mut idle = Typewriter::default();
    let flags = idle.change_text_style_in_modifying_stroke(
        |style: &mut TextStyle| style.font_weight = 900,
        &mut store,
    );
    assert_eq!(flags, WidgetFlags::default());
    assert_eq!(store.history_len(), 1);
}

#[test]
fn add_then_remove_attribute_on_selection() {
    let (mut store, key) = store_with_text("abcdef");
    let mut tw = Typewriter::default();
    tw.set_state(selecting(key, 4, 1, 6));
    let flags = tw.add_text_attribute_current_selection(TextAttribute::Underline(true), &mut store);
    assert_eq!(flags, WidgetFlags { redraw: true, indicate_changed_store: true, ..recorded() });
    {
        let attrs = &store.get_text_stroke(key).unwrap().text_style.ranged_text_attributes;
        assert_eq!(attrs.len(), 1);
        assert_eq!(attrs[0].range, 1..4);
        assert!(matches!(attrs[0].attribute, TextAttribute::Underline(true)));
    }
    tw.remove_text_attributes_current_selection(&mut store);
    assert!(store.get_text_stroke(key).unwrap().text_style.ranged_text_attributes.is_empty());
    assert_eq!(store.history_len(), 2);
}

#[test]
fn remove_attributes_keeps_those_outside_selection() {
    let (mut store, key) = store_with_text("abcdefgh");
    let mut t = store.get_text_stroke(key).unwrap().duplicate();
    t.text_style.ranged_text_attributes.push(bold(0, 2));
    t.text_style.ranged_text_attributes.push(bold(2, 5));
    t.text_style.ranged_text_attributes.push(bold(6, 8));
    store.replace_with_text_stroke(key, t);
    let mut tw = Typewriter::default();
    tw.set_state(selecting(key, 2, 6, 8));
    tw.remove_text_attributes_current_selection(&mut store);
    let ranges: Vec<_> = store
        .get_text_stroke(key)
        .unwrap()
        .text_style
        .ranged_text_attributes
        .iter()
        .map(|a| a.range.clone())
        .collect();
    assert_eq!(ranges, vec![0..2, 6..8]);
}

#[test]
fn attribute_operations_need_a_selection() {
    let (mut store, key) = store_with_text("abc");
    let mut tw = Typewriter::default();
    tw.set_state(modifying(key, 1, 3));
    assert_eq!(tw.add_text_attribute_current_selection(TextAttribute::Underline(true), &mut store), WidgetFlags::default());
    assert_eq!(tw.remove_text_attributes_current_selection(&mut store), WidgetFlags::default());
    assert_eq!(store.history_len(), 0);
}

#[test]
fn typed_text_reads_back_through_the_clipboard() {
    let (mut store, key) = store_with_text("abc");
    let mut tw = Typewriter::default();
    tw.set_state(modifying(key, 1, 3));
    tw.insert_text(String::from("XÿZ"), None, point(0.0, 0.0), &mut store);
    let end = match tw.state() {
        TypewriterState::Modifying { cursor, .. } => cursor.offset,
        other => panic!("unexpected state {:?}", other),
    };
    assert_eq!(end, 5);
    tw.set_state(selecting(key, end, 1, 7));
    let (bytes, _) = tw.fetch_clipboard_content(&store).unwrap().unwrap();
    assert_eq!(bytes, "XÿZ".as_bytes().to_vec());
}

#[test]
fn draw_plan_per_state() {
    let (store, key) = store_with_text("abc");
    let mut tw = Typewriter::default();
    let nothing = DrawPlan {
        outline: false,
        selection: false,
        cursor: false,
        adjust_text_width_node: None,
        translate_node: None,
    };
    assert_eq!(tw.draw_plan(&store), nothing);
    tw.set_state(TypewriterState::Start(point(0.0, 0.0)));
    assert_eq!(tw.draw_plan(&store), DrawPlan { outline: true, cursor: true, ..nothing });
    tw.set_state(selecting(key, 0, 2, 3));
    assert_eq!(
        tw.draw_plan(&store),
        DrawPlan {
            outline: true,
            selection: true,
            cursor: true,
            adjust_text_width_node: Some(NodeState::Up),
            translate_node: Some(NodeState::Up),
        }
    );
    tw.set_state(TypewriterState::Translating {
        stroke_key: key,
        cursor: TextCursor::new(0, 3),
        start_pos: point(0.0, 0.0),
        current_pos: point(0.0, 0.0),
    });
    assert_eq!(tw.draw_plan(&store).translate_node, Some(NodeState::Down));
    assert_eq!(tw.draw_plan(&store).adjust_text_width_node, Some(NodeState::Up));
    assert!(!tw.draw_plan(&store).cursor);
    tw.set_state(modifying(StrokeKey(42), 0, 0));
    assert_eq!(tw.draw_plan(&store), nothing);
}
