//! Editing core of a terminal text editor.
//!
//! The crate owns textual content (grapheme-segmented lines), tracks
//! cursor and viewport state, performs Unicode-aware mutation and
//! search, and produces the annotated, display-ready representation of
//! each visible line.  Terminal I/O itself is left to the surrounding
//! application; the core only computes what should appear on screen.

pub mod annotatedstring;
pub mod buffer;
pub mod commands;
pub mod editor;
pub mod filestatus;
pub mod fragment;
pub mod line;
pub mod position;
pub mod search;
pub mod uielements;
pub mod unicode;
pub mod view;
