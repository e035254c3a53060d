//! A verified model of the typewriter pen of a note-taking engine: text strokes
//! held in a stroke store, edited through byte-offset cursors.

pub mod text_buffer;
pub mod text_style;
pub mod cursor;
pub mod text_stroke;
pub mod store;
pub mod typewriter;
pub mod laws;
pub mod drawing;
pub mod workspace_folder;
