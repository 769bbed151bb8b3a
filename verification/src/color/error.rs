//! The structured failure reasons of color conversion.

use vstd::prelude::*;
use vstd::string::StringExecFns;

use crate::color::digits::decimal_int_chars;

verus! {

/// Why a color specification could not be converted. `InvalidRgb` and
/// `UnknownFormat` are reserved for input kinds that may be admitted later;
/// nothing constructs them today.
#[derive(Debug)]
pub enum ColorConversionError {
    /// The offending hex input, wrapped in a diagnostic message.
    InvalidHex(String),
    /// Reserved: RGB range violations (unreachable while RGB is a byte triple).
    InvalidRgb(String),
    /// The offending integer, outside 0..=255.
    InvalidAnsiValue(i32),
    /// Reserved: an input shape the library does not know.
    UnknownFormat(String),
}

impl ColorConversionError {
    /// The human-readable description of the failure.
    pub open spec fn message_chars(&self) -> Seq<char> {
        match self {
            ColorConversionError::InvalidHex(s) => "Invalid hex string: "@ + s@,
            ColorConversionError::InvalidRgb(s) => "Invalid RGB value: "@ + s@,
            ColorConversionError::InvalidAnsiValue(v) => "Invalid ANSI value: "@
                + decimal_int_chars(*v as int),
            ColorConversionError::UnknownFormat(s) => "Unknown format: "@ + s@,
        }
    }

    /// Renders the failure for diagnostics.
    pub fn message(&self) -> (r: String)
        ensures
            r@ == self.message_chars(),
    {
        match self {
            ColorConversionError::InvalidHex(s) => {
                let mut m = "Invalid hex string: ".to_owned();
                m.append(s.as_str());
                m
            },
            ColorConversionError::InvalidRgb(s) => {
                let mut m = "Invalid RGB value: ".to_owned();
                m.append(s.as_str());
                m
            },
            ColorConversionError::InvalidAnsiValue(v) => {
                let mut m = "Invalid ANSI value: ".to_owned();
                let rendered = crate::color::digits::decimal_i32_string(*v);
                m.append(rendered.as_str());
                m
            },
            ColorConversionError::UnknownFormat(s) => {
                let mut m = "Unknown format: ".to_owned();
                m.append(s.as_str());
                m
            },
        }
    }
}

} // verus!
