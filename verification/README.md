# rnote_typewriter

A verified library for the typewriter pen of a handwriting and note-taking
engine: a state machine that creates and edits text strokes held in a stroke
store, written in Verus.

- `src/text_buffer.rs`: byte-offset editing of UTF-8 text at character boundaries.
- `src/text_style.rs`: text styles and ranged attributes, and how attribute
  ranges follow an edit.
- `src/cursor.rs`: byte-offset cursors.
- `src/text_stroke.rs`: text strokes and their edits.
- `src/store.rs`: the stroke store with its undo history, and widget flags.
- `src/typewriter.rs`: the typewriter's state and operations.
- `src/drawing.rs`: what the typewriter draws in each state.
- `src/laws.rs`: properties across operations (typing composes, typed text reads
  back, updating from the store is idempotent, removing attributes undoes adding).
- `src/workspace_folder.rs`: the rule for naming a new workspace folder.
- `app/`: serialisable settings, floating-point geometry of the typewriter's
  nodes, drawing through a widget renderer, checked calls into the library, and
  the GTK "create folder" action.

Floating-point values (positions, widths, sizes, colors) are carried by the
library as `f64` bit patterns; all arithmetic on them is in `app/`.
