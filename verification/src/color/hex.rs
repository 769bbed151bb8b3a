//! Decoding hex color strings into RGB triples and ANSI codes. These
//! converters assume pre-validated input: validation must precede every call.

use vstd::prelude::*;
use vstd::string::StrSliceExecFns;

use crate::color::digits::{hex_digit_value, is_hex_digit};
use crate::color::rgb::{rgb_ansi, rgb_to_ansi8};
use crate::color::validate::{strip_hash, valid_hex};

verus! {

/// The byte two hexadecimal digit characters denote, high digit first.
pub open spec fn hex_byte(hi: char, lo: char) -> u8 {
    (16 * hex_digit_value(hi) + hex_digit_value(lo)) as u8
}

/// The RGB triple a valid hex color denotes: pairs of digits for the 6-digit
/// form, each digit duplicated for the 3-digit shorthand. Meaningful only
/// when `valid_hex(s)` holds.
pub open spec fn hex_rgb(s: Seq<char>) -> (u8, u8, u8) {
    let h = strip_hash(s);
    if h.len() == 6 {
        (hex_byte(h[0], h[1]), hex_byte(h[2], h[3]), hex_byte(h[4], h[5]))
    } else {
        (hex_byte(h[0], h[0]), hex_byte(h[1], h[1]), hex_byte(h[2], h[2]))
    }
}

/// The ANSI code a valid hex color quantizes to.
pub open spec fn hex_ansi(s: Seq<char>) -> u8 {
    rgb_ansi(hex_rgb(s).0, hex_rgb(s).1, hex_rgb(s).2)
}

/// The numeric value of one hexadecimal digit character.
fn hex_digit_val(c: char) -> (v: u8)
    requires
        is_hex_digit(c),
    ensures
        v as int == hex_digit_value(c),
        v < 16,
{
    let u = c as u32;
    if '0' as u32 <= u && u <= '9' as u32 {
        (u - '0' as u32) as u8
    } else if 'a' as u32 <= u && u <= 'f' as u32 {
        (u - 'a' as u32 + 10) as u8
    } else {
        (u - 'A' as u32 + 10) as u8
    }
}

/// Converts a hex color string (e.g. `"#FF00AA"` or `"F0A"`) to an RGB
/// array. The input must be a valid 3- or 6-digit hex color, with or without
/// a leading `#`.
pub fn hex_to_rgb(hex: &str) -> (rgb: [u8; 3])
    requires
        valid_hex(hex@),
    ensures
        (rgb[0], rgb[1], rgb[2]) == hex_rgb(hex@),
{
    let n = hex.unicode_len();
    let off: usize = if n > 0 && hex.get_char(0) == '#' {
        1
    } else {
        0
    };
    proof {
        assert(strip_hash(hex@) =~= hex@.subrange(off as int, n as int));
        let h = strip_hash(hex@);
        let o = off as int;
        assert(is_hex_digit(h[0]) && h[0] == hex@[o]);
        assert(is_hex_digit(h[1]) && h[1] == hex@[o + 1]);
        assert(is_hex_digit(h[2]) && h[2] == hex@[o + 2]);
    }
    let len = n - off;
    if len == 6 {
        proof {
            let h = strip_hash(hex@);
            let o = off as int;
            assert(is_hex_digit(h[3]) && h[3] == hex@[o + 3]);
            assert(is_hex_digit(h[4]) && h[4] == hex@[o + 4]);
            assert(is_hex_digit(h[5]) && h[5] == hex@[o + 5]);
        }
        let r = 16 * hex_digit_val(hex.get_char(off)) + hex_digit_val(hex.get_char(off + 1));
        let g = 16 * hex_digit_val(hex.get_char(off + 2)) + hex_digit_val(hex.get_char(off + 3));
        let b = 16 * hex_digit_val(hex.get_char(off + 4)) + hex_digit_val(hex.get_char(off + 5));
        [r, g, b]
    } else {
        let r = 17 * hex_digit_val(hex.get_char(off));
        let g = 17 * hex_digit_val(hex.get_char(off + 1));
        let b = 17 * hex_digit_val(hex.get_char(off + 2));
        [r, g, b]
    }
}

/// Converts a valid hex color string to the ANSI 8-bit code it quantizes to,
/// through [`hex_to_rgb`] and [`rgb_to_ansi8`].
pub fn hex_to_ansi8(hex: &str) -> (code: u8)
    requires
        valid_hex(hex@),
    ensures
        code == hex_ansi(hex@),
{
    let rgb = hex_to_rgb(hex);
    rgb_to_ansi8(rgb)
}

} // verus!
