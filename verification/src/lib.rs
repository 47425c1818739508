//! Backends that let a cell-diffing text UI draw onto a Bracket terminal.
//!
//! The crate does not paint the text UI's cursor: it keeps the cursor's
//! logical position, and a caller that wants to see it draws it.
//!
//! A Bracket terminal shows code page 437 glyphs with its usual fonts, while
//! text UIs tend to draw boxes with Unicode; callers will likely have to pick
//! such symbols themselves.

pub mod bterm;
pub mod cell;
pub mod colours;
pub mod draw_batch;
pub mod geometry;
pub mod host;

pub use colours::{BasicColourConverter, ColourConverter};
