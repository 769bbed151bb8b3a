//! Wrapping text in ANSI SGR escape sequences: fixed style attributes and
//! 256-color foreground and background selection, applied to single strings,
//! flat lists and rectangular grids alike.

pub mod color_apply;
pub mod colors;
pub mod stylable;
pub mod style;
pub mod text;

pub use colors::{background, color};
pub use text::{bold, faint, inverse, italic, underline};
