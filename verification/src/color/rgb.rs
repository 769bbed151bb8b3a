//! Conversions out of RGB triples: hex rendering and quantization to the
//! 8-bit ANSI palette.

use vstd::prelude::*;
use vstd::string::StringExecFns;

use crate::color::digits::{hex_digit_char, hex_digit_str};

verus! {

/// The grayscale ramp level an equal-channel RGB value quantizes to:
/// the channel value scaled from 0..=255 onto 0..=26, rounding half away
/// from zero.
pub open spec fn gray_level_of(v: u8) -> int {
    (v + 5) / 10
}

/// The 6x6x6 cube axis index (0..=5) a channel value quantizes to: zero below
/// 75, one more step for every further 40.
pub open spec fn cube_index_of(v: u8) -> int {
    if v < 75 {
        0
    } else {
        (v - 75) / 40 + 1
    }
}

/// The ANSI code an RGB triple quantizes to. Equal channels take the
/// grayscale ramp (232..=255), clamped to cube black (16) and cube white
/// (231); anything else takes the 6x6x6 color cube (16..=231).
pub open spec fn rgb_ansi(r: u8, g: u8, b: u8) -> u8 {
    if r == g && b == g {
        let level = gray_level_of(r);
        if level < 1 {
            16
        } else if level > 24 {
            231
        } else {
            (231 + level) as u8
        }
    } else {
        (16 + 36 * cube_index_of(r) + 6 * cube_index_of(g) + cube_index_of(b)) as u8
    }
}

/// The `#RRGGBB` rendering of an RGB triple, uppercase.
pub open spec fn rgb_hex_chars(r: u8, g: u8, b: u8) -> Seq<char> {
    seq![
        '#',
        hex_digit_char(r as int / 16),
        hex_digit_char(r as int % 16),
        hex_digit_char(g as int / 16),
        hex_digit_char(g as int % 16),
        hex_digit_char(b as int / 16),
        hex_digit_char(b as int % 16),
    ]
}

/// Converts an RGB color array into a hex color string in the format
/// `#RRGGBB`, uppercase and zero-padded to 2 digits per channel.
pub fn rgb_to_hex(arr: [u8; 3]) -> (r: String)
    ensures
        r@ == rgb_hex_chars(arr[0], arr[1], arr[2]),
{
    let mut s = String::new();
    s.append("#");
    s.append(hex_digit_str(arr[0] / 16));
    s.append(hex_digit_str(arr[0] % 16));
    s.append(hex_digit_str(arr[1] / 16));
    s.append(hex_digit_str(arr[1] % 16));
    s.append(hex_digit_str(arr[2] / 16));
    s.append(hex_digit_str(arr[2] % 16));
    proof {
        reveal_strlit("#");
        assert(s@ =~= rgb_hex_chars(arr[0], arr[1], arr[2]));
    }
    s
}

/// The cube axis index for one channel value.
fn cube_index(v: u8) -> (i: u8)
    ensures
        i as int == cube_index_of(v),
        i <= 5,
{
    if v < 75 {
        0
    } else {
        (v - 75) / 40 + 1
    }
}

/// Converts an RGB color array into an ANSI 8-bit color code: the grayscale
/// ramp when all channels are equal, the 6x6x6 color cube otherwise.
pub fn rgb_to_ansi8(arr: [u8; 3]) -> (code: u8)
    ensures
        code == rgb_ansi(arr[0], arr[1], arr[2]),
{
    let r = arr[0];
    let g = arr[1];
    let b = arr[2];
    if r == g && b == g {
        let level = (r as u32 + 5) / 10;
        if level < 1 {
            16
        } else if level > 24 {
            231
        } else {
            (231 + level as u8)
        }
    } else {
        16 + 36 * cube_index(r) + 6 * cube_index(g) + cube_index(b)
    }
}

} // verus!
