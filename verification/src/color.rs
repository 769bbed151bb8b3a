//! Color-space conversions between hex strings, RGB triples and 8-bit ANSI
//! codes, together with the validation that gates malformed input.

pub mod ansi;
pub mod digits;
pub mod error;
pub mod hex;
pub mod laws;
pub mod rgb;
pub mod validate;

pub use ansi::{ansi8_to_hex, ansi8_to_rgb, ansi_from_color_definition, IntoColorString};
pub use error::ColorConversionError;
pub use hex::{hex_to_ansi8, hex_to_rgb};
pub use rgb::{rgb_to_ansi8, rgb_to_hex};
pub use validate::{validate_ansi, validate_hex};
