//! A verified styling engine for a live markdown preview.
//!
//! The library consumes the event stream of a markdown parser (start/end
//! markers for headings, paragraphs, lists and list items, interleaved with
//! text and break events) and turns it into a sequence of render
//! instructions: styled text runs and line breaks. The walk keeps a small
//! mutable style state (color, font size, emphasis flags, list nesting),
//! reset at the start of every pass, and each emitted instruction is fully
//! determined by the events seen so far.

pub mod event;
pub mod instruction;
pub mod laws;
pub mod lines;
pub mod parse;
pub mod render;
pub mod state;
