//! What the typewriter draws on the document in each state. The drawing itself
//! (outlines, the text cursor and selection, the nodes) is done by the renderer
//! from this plan.

use crate::store::{text_stroke_at, StrokeStore, StrokeView};
use crate::typewriter::{Typewriter, TypewriterState};
use vstd::prelude::*;

verus! {

/// How a node is drawn: released, or pressed while it is being dragged.
#[derive(Clone, Copy, Debug, PartialEq, Eq, Structural)]
pub enum NodeState {
    Up,
    Down,
}

/// The parts of the typewriter to draw.
#[derive(Clone, Copy, Debug, PartialEq, Eq, Structural)]
pub struct DrawPlan {
    /// The outline of the typewriter's bounds, around the text or the start point.
    pub outline: bool,
    /// The selection between the cursor and the selection cursor.
    pub selection: bool,
    /// The text cursor (at the start point when a text is about to start).
    pub cursor: bool,
    /// The node that adjusts the text width.
    pub adjust_text_width_node: Option<NodeState>,
    /// The node that moves the text.
    pub translate_node: Option<NodeState>,
}

/// Nothing to draw.
pub open spec fn nothing_drawn() -> DrawPlan {
    DrawPlan {
        outline: false,
        selection: false,
        cursor: false,
        adjust_text_width_node: None,
        translate_node: None,
    }
}

/// The outline and both nodes, in the given node states, around a text stroke.
pub open spec fn around_text(adjust: NodeState, translate: NodeState) -> DrawPlan {
    DrawPlan {
        outline: true,
        adjust_text_width_node: Some(adjust),
        translate_node: Some(translate),
        ..nothing_drawn()
    }
}

/// What to draw in `state` over the strokes `m`: nothing when idle; the outline
/// and the cursor at the start point when a text is about to start; around a
/// text stroke the outline and both nodes, with the cursor while modifying, the
/// selection and the cursor while selecting, and the dragged node pressed while
/// translating or adjusting the width. Nothing is drawn for a state whose stroke
/// is not a text stroke.
pub open spec fn draw_plan_of(state: TypewriterState, m: Map<u64, StrokeView>) -> DrawPlan {
    match state {
        TypewriterState::Idle => nothing_drawn(),
        TypewriterState::Start(_) => DrawPlan { outline: true, cursor: true, ..nothing_drawn() },
        TypewriterState::Modifying { stroke_key, .. } => if text_stroke_at(m, stroke_key) is Some {
            DrawPlan { cursor: true, ..around_text(NodeState::Up, NodeState::Up) }
        } else {
            nothing_drawn()
        },
        TypewriterState::Selecting { stroke_key, .. } => if text_stroke_at(m, stroke_key) is Some {
            DrawPlan { selection: true, cursor: true, ..around_text(NodeState::Up, NodeState::Up) }
        } else {
            nothing_drawn()
        },
        TypewriterState::Translating { stroke_key, .. } => if text_stroke_at(m, stroke_key) is Some {
            around_text(NodeState::Up, NodeState::Down)
        } else {
            nothing_drawn()
        },
        TypewriterState::AdjustTextWidth { stroke_key, .. } => if text_stroke_at(m, stroke_key) is Some {
            around_text(NodeState::Down, NodeState::Up)
        } else {
            nothing_drawn()
        },
    }
}

impl Typewriter {
    /// What to draw of the typewriter over the strokes of `store`.
    pub fn draw_plan(&self, store: &StrokeStore) -> (plan: DrawPlan)
        ensures
            plan == draw_plan_of(self@.state, store@),
    {
        let nothing = DrawPlan {
            outline: false,
            selection: false,
            cursor: false,
            adjust_text_width_node: None,
            translate_node: None,
        };
        match self.state() {
            TypewriterState::Idle => nothing,
            TypewriterState::Start(_) => DrawPlan { outline: true, cursor: true, ..nothing },
            TypewriterState::Modifying { stroke_key, .. } => {
                if store.get_text_stroke(stroke_key).is_some() {
                    DrawPlan {
                        outline: true,
                        cursor: true,
                        adjust_text_width_node: Some(NodeState::Up),
                        translate_node: Some(NodeState::Up),
                        ..nothing
                    }
                } else {
                    nothing
                }
            },
            TypewriterState::Selecting { stroke_key, .. } => {
                if store.get_text_stroke(stroke_key).is_some() {
                    DrawPlan {
                        outline: true,
                        selection: true,
                        cursor: true,
                        adjust_text_width_node: Some(NodeState::Up),
                        translate_node: Some(NodeState::Up),
                    }
                } else {
                    nothing
                }
            },
            TypewriterState::Translating { stroke_key, .. } => {
                if store.get_text_stroke(stroke_key).is_some() {
                    DrawPlan {
                        outline: true,
                        adjust_text_width_node: Some(NodeState::Up),
                        translate_node: Some(NodeState::Down),
                        ..nothing
                    }
                } else {
                    nothing
                }
            },
            TypewriterState::AdjustTextWidth { stroke_key, .. } => {
                if store.get_text_stroke(stroke_key).is_some() {
                    DrawPlan {
                        outline: true,
                        adjust_text_width_node: Some(NodeState::Down),
                        translate_node: Some(NodeState::Up),
                        ..nothing
                    }
                } else {
                    nothing
                }
            },
        }
    }
}

} // verus!
