//! The store of strokes that the typewriter edits, with its undo history, and
//! the flags that tell the surrounding widget what to refresh.

use crate::text_stroke::{TextStroke, TextStrokeView};
use std::collections::HashMap;
use vstd::prelude::*;

verus! {

broadcast use vstd::std_specs::hash::group_hash_axioms;

/// The key of a stroke in a [`StrokeStore`].
#[derive(Clone, Copy, Debug, PartialEq, Eq, Structural, Hash)]
pub struct StrokeKey(pub u64);

/// A stroke of the document. Strokes other than text strokes (brush, shape and
/// image strokes) are carried without their contents.
#[derive(Clone, Debug)]
pub enum Stroke {
    TextStroke(TextStroke),
    Other,
}

/// What a [`Stroke`] stands for.
pub enum StrokeView {
    TextStroke(TextStrokeView),
    Other,
}

impl View for Stroke {
    type V = StrokeView;

    open spec fn view(&self) -> StrokeView {
        match self {
            Stroke::TextStroke(t) => StrokeView::TextStroke(t@),
            Stroke::Other => StrokeView::Other,
        }
    }
}

/// The text stroke stored under `key` in the strokes `m`, if there is one.
pub open spec fn text_stroke_at(m: Map<u64, StrokeView>, key: StrokeKey) -> Option<TextStrokeView> {
    if m.contains_key(key.0) {
        match m[key.0] {
            StrokeView::TextStroke(t) => Some(t),
            StrokeView::Other => None,
        }
    } else {
        None
    }
}

/// What a widget showing the document has to do after an operation.
#[derive(Clone, Copy, Debug, PartialEq, Eq, Structural)]
pub struct WidgetFlags {
    pub redraw: bool,
    pub resize: bool,
    pub indicate_changed_store: bool,
    /// Whether to hide the undo action, where that changed.
    pub hide_undo: Option<bool>,
    /// Whether to hide the redo action, where that changed.
    pub hide_redo: Option<bool>,
}

/// No flag set.
pub open spec fn no_flags() -> WidgetFlags {
    WidgetFlags {
        redraw: false,
        resize: false,
        indicate_changed_store: false,
        hide_undo: None,
        hide_redo: None,
    }
}

/// The flags after a history point is recorded: undo becomes available and
/// there is nothing left to redo.
pub open spec fn recorded_flags() -> WidgetFlags {
    WidgetFlags { hide_undo: Some(false), hide_redo: Some(true), ..no_flags() }
}

impl WidgetFlags {
    /// These flags with `other` merged in: a refresh is owed if either asks for
    /// it, and `other`'s undo and redo visibility win where it has one.
    pub open spec fn merged(self, other: WidgetFlags) -> WidgetFlags {
        WidgetFlags {
            redraw: self.redraw || other.redraw,
            resize: self.resize || other.resize,
            indicate_changed_store: self.indicate_changed_store || other.indicate_changed_store,
            hide_undo: if other.hide_undo is Some {
                other.hide_undo
            } else {
                self.hide_undo
            },
            hide_redo: if other.hide_redo is Some {
                other.hide_redo
            } else {
                self.hide_redo
            },
        }
    }

    /// Merges `other` into these flags.
    pub fn merge_with_other(&mut self, other: WidgetFlags)
        ensures
            *final(self) == old(self).merged(other),
    {
        self.redraw = self.redraw || other.redraw;
        self.resize = self.resize || other.resize;
        self.indicate_changed_store = self.indicate_changed_store || other.indicate_changed_store;
        if other.hide_undo.is_some() {
            self.hide_undo = other.hide_undo;
        }
        if other.hide_redo.is_some() {
            self.hide_redo = other.hide_redo;
        }
    }
}

impl Default for WidgetFlags {
    fn default() -> (flags: WidgetFlags)
        ensures
            flags == no_flags(),
    {
        WidgetFlags {
            redraw: false,
            resize: false,
            indicate_changed_store: false,
            hide_undo: None,
            hide_redo: None,
        }
    }
}

/// The strokes of a document by key, with the states recorded for undo.
pub struct StrokeStore {
    strokes: HashMap<u64, Stroke>,
    history: Vec<HashMap<u64, Stroke>>,
    next_key: u64,
}

/// The views of the strokes of a map.
pub open spec fn strokes_view(m: Map<u64, Stroke>) -> Map<u64, StrokeView> {
    m.map_values(|s: Stroke| s@)
}

impl View for StrokeStore {
    type V = Map<u64, StrokeView>;

    closed spec fn view(&self) -> Map<u64, StrokeView> {
        strokes_view(self.strokes@)
    }
}

impl StrokeStore {
    /// Every key in use was handed out before the next one.
    #[verifier::type_invariant]
    spec fn keys_below_next(self) -> bool {
        forall|k: u64| self.strokes@.contains_key(k) ==> k < self.next_key
    }

    /// The states of the strokes recorded for undo, oldest first.
    pub closed spec fn history(&self) -> Seq<Map<u64, StrokeView>> {
        self.history@.map_values(|h: HashMap<u64, Stroke>| strokes_view(h@))
    }

    /// A fresh key is left for another stroke.
    pub closed spec fn can_insert(&self) -> bool {
        self.next_key < u64::MAX
    }

    /// Whether a fresh key is left for another stroke.
    pub fn has_free_key(&self) -> (free: bool)
        ensures
            free == self.can_insert(),
    {
        self.next_key < u64::MAX
    }

    /// An empty store with no history.
    pub fn new() -> (store: StrokeStore)
        ensures
            store@ == Map::<u64, StrokeView>::empty(),
            store.history() == Seq::<Map<u64, StrokeView>>::empty(),
            store.can_insert(),
    {
        let store = StrokeStore { strokes: HashMap::new(), history: Vec::new(), next_key: 0 };
        assert(store@ =~= Map::<u64, StrokeView>::empty());
        assert(store.history() =~= Seq::<Map<u64, StrokeView>>::empty());
        store
    }

    /// Stores `stroke` under a key that was not in use and returns that key.
    pub fn insert_stroke(&mut self, stroke: Stroke) -> (key: StrokeKey)
        requires
            old(self).can_insert(),
        ensures
            !old(self)@.contains_key(key.0),
            final(self)@ == old(self)@.insert(key.0, stroke@),
            final(self).history() == old(self).history(),
    {
        proof {
            use_type_invariant(&*self);
        }
        let key = self.next_key;
        let ghost v = stroke@;
        let mut strokes: HashMap<u64, Stroke> = HashMap::new();
        std::mem::swap(&mut strokes, &mut self.strokes);
        self.next_key = key + 1;
        strokes.insert(key, stroke);
        self.strokes = strokes;
        assert(self@ =~= old(self)@.insert(key, v));
        StrokeKey(key)
    }

    /// The stroke stored under `key`, if any.
    pub fn get_stroke_ref(&self, key: StrokeKey) -> (stroke: Option<&Stroke>)
        ensures
            match stroke {
                Some(s) => self@.contains_key(key.0) && s@ == self@[key.0],
                None => !self@.contains_key(key.0),
            },
    {
        self.strokes.get(&key.0)
    }

    /// The text stroke stored under `key`, if the stroke there is one.
    pub fn get_text_stroke(&self, key: StrokeKey) -> (stroke: Option<&TextStroke>)
        ensures
            match stroke {
                Some(t) => text_stroke_at(self@, key) == Some(t@),
                None => text_stroke_at(self@, key) is None,
            },
    {
        match self.get_stroke_ref(key) {
            Some(Stroke::TextStroke(t)) => Some(t),
            _ => None,
        }
    }

    /// Replaces the stroke under `key`, which is in use, by the text stroke `stroke`.
    pub fn replace_with_text_stroke(&mut self, key: StrokeKey, stroke: TextStroke)
        requires
            old(self)@.contains_key(key.0),
        ensures
            final(self)@ == old(self)@.insert(key.0, StrokeView::TextStroke(stroke@)),
            final(self).history() == old(self).history(),
            final(self).can_insert() == old(self).can_insert(),
    {
        proof {
            use_type_invariant(&*self);
        }
        let ghost v = stroke@;
        let mut strokes: HashMap<u64, Stroke> = HashMap::new();
        std::mem::swap(&mut strokes, &mut self.strokes);
        strokes.insert(key.0, Stroke::TextStroke(stroke));
        self.strokes = strokes;
        assert(self@ =~= old(self)@.insert(key.0, StrokeView::TextStroke(v)));
    }

    /// The number of recorded history points.
    pub fn history_len(&self) -> (n: usize)
        ensures
            n == self.history().len(),
    {
        self.history.len()
    }

    /// Records the current strokes as a point to return to by undo.
    pub fn record(&mut self) -> (flags: WidgetFlags)
        ensures
            final(self)@ == old(self)@,
            final(self).history() == old(self).history().push(old(self)@),
            final(self).can_insert() == old(self).can_insert(),
            flags == recorded_flags(),
    {
        proof {
            use_type_invariant(&*self);
        }
        let snapshot = self.strokes.clone();
        let mut history: Vec<HashMap<u64, Stroke>> = Vec::new();
        std::mem::swap(&mut history, &mut self.history);
        history.push(snapshot);
        self.history = history;
        assert(self.history() =~= old(self).history().push(old(self)@));
        WidgetFlags {
            redraw: false,
            resize: false,
            indicate_changed_store: false,
            hide_undo: Some(false),
            hide_redo: Some(true),
        }
    }
}

} // verus!
