//! Conversions between color representations (hexadecimal strings, RGB
//! triples, 8-bit ANSI terminal codes) and helpers that wrap text with ANSI
//! escape sequences for terminal styling.

pub mod color;
pub mod format;
