//! Decoding 8-bit ANSI color codes back to RGB and hex, and the conversion
//! of heterogeneous color specifications into an ANSI color string.

use vstd::prelude::*;

use crate::color::digits::{decimal_digits, decimal_u32_string};
use crate::color::error::ColorConversionError;
use crate::color::hex::{hex_ansi, hex_to_ansi8};
use crate::color::rgb::{rgb_ansi, rgb_hex_chars, rgb_to_ansi8, rgb_to_hex};
use crate::color::validate::{invalid_hex_message, valid_hex, validate_hex};

verus! {

/// A color specification that can be reduced to the decimal string of an
/// ANSI 8-bit color code: an RGB triple, a hex string, or a raw ANSI byte.
pub trait IntoColorString: Sized {
    /// Whether the specification is well-formed.
    spec fn color_string_ok(self) -> bool;

    /// The decimal ANSI color string a well-formed specification resolves to.
    spec fn color_string_chars(self) -> Seq<char>;

    /// What the error for an ill-formed specification carries.
    spec fn color_string_err(self, e: ColorConversionError) -> bool;

    /// Resolves the specification, rejecting ill-formed input.
    fn into_color_string(self) -> (r: Result<String, ColorConversionError>)
        ensures
            self.color_string_ok() ==> (r matches Ok(s) && s@ == self.color_string_chars()),
            !self.color_string_ok() ==> (r matches Err(e) && self.color_string_err(e)),
    ;
}

/// An RGB array quantizes to the cube or the grayscale ramp; always
/// well-formed.
impl IntoColorString for [u8; 3] {
    open spec fn color_string_ok(self) -> bool {
        true
    }

    open spec fn color_string_chars(self) -> Seq<char> {
        decimal_digits(rgb_ansi(self[0], self[1], self[2]) as nat)
    }

    open spec fn color_string_err(self, e: ColorConversionError) -> bool {
        false
    }

    fn into_color_string(self) -> (r: Result<String, ColorConversionError>) {
        Ok(decimal_u32_string(rgb_to_ansi8(self) as u32))
    }
}

/// An owned hex string is validated before conversion.
impl IntoColorString for String {
    open spec fn color_string_ok(self) -> bool {
        valid_hex(self@)
    }

    open spec fn color_string_chars(self) -> Seq<char> {
        decimal_digits(hex_ansi(self@) as nat)
    }

    open spec fn color_string_err(self, e: ColorConversionError) -> bool {
        e matches ColorConversionError::InvalidHex(m) && m@ == invalid_hex_message(self@)
    }

    fn into_color_string(self) -> (r: Result<String, ColorConversionError>) {
        match validate_hex(self.as_str()) {
            Err(e) => Err(e),
            Ok(()) => Ok(decimal_u32_string(hex_to_ansi8(self.as_str()) as u32)),
        }
    }
}

/// A borrowed hex string is validated before conversion.
impl IntoColorString for &str {
    open spec fn color_string_ok(self) -> bool {
        valid_hex(self@)
    }

    open spec fn color_string_chars(self) -> Seq<char> {
        decimal_digits(hex_ansi(self@) as nat)
    }

    open spec fn color_string_err(self, e: ColorConversionError) -> bool {
        e matches ColorConversionError::InvalidHex(m) && m@ == invalid_hex_message(self@)
    }

    fn into_color_string(self) -> (r: Result<String, ColorConversionError>) {
        match validate_hex(self) {
            Err(e) => Err(e),
            Ok(()) => Ok(decimal_u32_string(hex_to_ansi8(self) as u32)),
        }
    }
}

/// A raw ANSI byte is already a code; the type constrains it to 0..=255.
impl IntoColorString for u8 {
    open spec fn color_string_ok(self) -> bool {
        true
    }

    open spec fn color_string_chars(self) -> Seq<char> {
        decimal_digits(self as nat)
    }

    open spec fn color_string_err(self, e: ColorConversionError) -> bool {
        false
    }

    fn into_color_string(self) -> (r: Result<String, ColorConversionError>) {
        Ok(decimal_u32_string(self as u32))
    }
}

/// Converts any accepted color representation into the decimal string of its
/// ANSI 8-bit color code, rejecting ill-formed input.
pub fn ansi_from_color_definition<T: IntoColorString>(input: T) -> (r: Result<
    String,
    ColorConversionError,
>)
    ensures
        input.color_string_ok() ==> (r matches Ok(s) && s@ == input.color_string_chars()),
        !input.color_string_ok() ==> (r matches Err(e) && input.color_string_err(e)),
{
    input.into_color_string()
}

/// The channel value for one axis index (0..=5) of the 6x6x6 color cube:
/// 0, 95, 135, 175, 215, 255.
pub open spec fn cube_channel_value(x: int) -> u8 {
    if x == 0 {
        0u8
    } else {
        (x * 40 + 55) as u8
    }
}

/// The channel value replicated by a grayscale-ramp code (232..=255).
pub open spec fn gray_channel_value(code: u8) -> u8 {
    ((code - 231) * 10 - 2) as u8
}

/// The RGB triple denoted by an ANSI 8-bit color code, total over all 256
/// codes: low-intensity primaries (0..=6), the two fixed grays (7, 8),
/// high-intensity primaries (9..=15), the 6x6x6 color cube (16..=231) and
/// the 24-step grayscale ramp (232..=255).
pub open spec fn ansi_rgb(code: u8) -> (u8, u8, u8) {
    if code <= 6 {
        (
            (127 * (code as int % 2)) as u8,
            (127 * (code as int / 2 % 2)) as u8,
            (127 * (code as int / 4 % 2)) as u8,
        )
    } else if code == 7 {
        (192u8, 192u8, 192u8)
    } else if code == 8 {
        (127u8, 127u8, 127u8)
    } else if code <= 15 {
        let m = code - 8;
        (
            (255 * (m as int % 2)) as u8,
            (255 * (m as int / 2 % 2)) as u8,
            (255 * (m as int / 4 % 2)) as u8,
        )
    } else if code <= 231 {
        let idx = code - 16;
        (
            cube_channel_value(idx as int / 36),
            cube_channel_value(idx as int / 6 % 6),
            cube_channel_value(idx as int % 6),
        )
    } else {
        let g = gray_channel_value(code);
        (g, g, g)
    }
}

/// The hex string denoted by an ANSI 8-bit color code.
pub open spec fn ansi_hex_chars(code: u8) -> Seq<char> {
    rgb_hex_chars(ansi_rgb(code).0, ansi_rgb(code).1, ansi_rgb(code).2)
}

/// The channel value for one cube axis index.
fn cube_channel(x: u8) -> (v: u8)
    requires
        x <= 5,
    ensures
        v == cube_channel_value(x as int),
{
    if x == 0 {
        0
    } else {
        x * 40 + 55
    }
}

/// Converts an ANSI 8-bit color value to an RGB array. Total: every byte
/// value falls in one of the five bands of the palette.
pub fn ansi8_to_rgb(num: u8) -> (rgb: [u8; 3])
    ensures
        (rgb[0], rgb[1], rgb[2]) == ansi_rgb(num),
{
    if num <= 6 {
        [127 * (num % 2), 127 * (num / 2 % 2), 127 * (num / 4 % 2)]
    } else if num == 7 {
        [192, 192, 192]
    } else if num == 8 {
        [127, 127, 127]
    } else if num <= 15 {
        let m = num - 8;
        [255 * (m % 2), 255 * (m / 2 % 2), 255 * (m / 4 % 2)]
    } else if num <= 231 {
        let idx = num - 16;
        [cube_channel(idx / 36), cube_channel(idx / 6 % 6), cube_channel(idx % 6)]
    } else {
        let g = (num - 231) * 10 - 2;
        [g, g, g]
    }
}

/// Converts an ANSI 8-bit color value to its hex string, through
/// [`ansi8_to_rgb`] and [`rgb_to_hex`].
pub fn ansi8_to_hex(num: u8) -> (r: String)
    ensures
        r@ == ansi_hex_chars(num),
{
    let rgb = ansi8_to_rgb(num);
    rgb_to_hex(rgb)
}

} // verus!
