//! The laws the conversions obey, stated over the specification functions
//! the executable contracts use.

use vstd::prelude::*;

use crate::color::ansi::{ansi_hex_chars, ansi_rgb, cube_channel_value, gray_channel_value};
use crate::color::digits::{
    hex_digit_char, hex_digit_value, is_hex_digit, lemma_hex_digit_char_value,
    lemma_hex_digit_value_bounds,
};
use crate::color::hex::{hex_ansi, hex_byte, hex_rgb};
use crate::color::rgb::{cube_index_of, gray_level_of, rgb_ansi, rgb_hex_chars};
use crate::color::validate::{strip_hash, valid_hex};

verus! {

/// The normalized form of a 6-digit hex color: `#`-prefixed, uppercase.
pub open spec fn normalized_hex(s: Seq<char>) -> Seq<char> {
    seq!['#'] + strip_hash(s).map_values(|c: char| hex_digit_char(hex_digit_value(c)))
}

/// A byte splits uniquely into its two hex digits.
proof fn lemma_hex_byte_split(v: u8)
    ensures
        v as int / 16 < 16,
        16 * (v as int / 16) + v as int % 16 == v,
{
}

/// Round trip: converting a valid 6-digit hex color to RGB and rendering the
/// RGB back as hex yields the normalized form of the input.
pub proof fn lemma_hex_rgb_hex_round_trip(s: Seq<char>)
    requires
        valid_hex(s),
        strip_hash(s).len() == 6,
    ensures
        rgb_hex_chars(hex_rgb(s).0, hex_rgb(s).1, hex_rgb(s).2) == normalized_hex(s),
{
    let h = strip_hash(s);
    assert forall|i: int| 0 <= i < 6 implies 0 <= hex_digit_value(#[trigger] h[i]) < 16 by {
        assert(is_hex_digit(h[i]));
        lemma_hex_digit_value_bounds(h[i]);
    }
    let r = hex_byte(h[0], h[1]);
    let g = hex_byte(h[2], h[3]);
    let b = hex_byte(h[4], h[5]);
    assert(r as int / 16 == hex_digit_value(h[0]) && r as int % 16 == hex_digit_value(h[1]))
        by (nonlinear_arith)
        requires
            r == 16 * hex_digit_value(h[0]) + hex_digit_value(h[1]),
            0 <= hex_digit_value(h[0]) < 16,
            0 <= hex_digit_value(h[1]) < 16,
    ;
    assert(g as int / 16 == hex_digit_value(h[2]) && g as int % 16 == hex_digit_value(h[3]))
        by (nonlinear_arith)
        requires
            g == 16 * hex_digit_value(h[2]) + hex_digit_value(h[3]),
            0 <= hex_digit_value(h[2]) < 16,
            0 <= hex_digit_value(h[3]) < 16,
    ;
    assert(b as int / 16 == hex_digit_value(h[4]) && b as int % 16 == hex_digit_value(h[5]))
        by (nonlinear_arith)
        requires
            b == 16 * hex_digit_value(h[4]) + hex_digit_value(h[5]),
            0 <= hex_digit_value(h[4]) < 16,
            0 <= hex_digit_value(h[5]) < 16,
    ;
    assert(rgb_hex_chars(r, g, b) =~= normalized_hex(s));
}

/// Rendering any RGB triple as hex yields a valid 6-digit hex color that
/// parses back to the same triple.
pub proof fn lemma_rgb_hex_parses_back(r: u8, g: u8, b: u8)
    ensures
        valid_hex(rgb_hex_chars(r, g, b)),
        strip_hash(rgb_hex_chars(r, g, b)).len() == 6,
        hex_rgb(rgb_hex_chars(r, g, b)) == (r, g, b),
{
    let chars = rgb_hex_chars(r, g, b);
    let h = strip_hash(chars);
    assert(h =~= chars.subrange(1, 7));
    lemma_hex_byte_split(r);
    lemma_hex_byte_split(g);
    lemma_hex_byte_split(b);
    lemma_hex_digit_char_value(r as int / 16);
    lemma_hex_digit_char_value(r as int % 16);
    lemma_hex_digit_char_value(g as int / 16);
    lemma_hex_digit_char_value(g as int % 16);
    lemma_hex_digit_char_value(b as int / 16);
    lemma_hex_digit_char_value(b as int % 16);
    assert forall|i: int| 0 <= i < h.len() implies is_hex_digit(#[trigger] h[i]) by {
        assert(h[i] == chars[i + 1]);
    }
    assert(hex_byte(h[0], h[1]) == r);
    assert(hex_byte(h[2], h[3]) == g);
    assert(hex_byte(h[4], h[5]) == b);
}

/// Grayscale invariant: a triple with equal channels quantizes to cube black
/// (16), cube white (231), or the grayscale ramp (232..=255).
pub proof fn lemma_grayscale_band(r: u8, g: u8, b: u8)
    requires
        r == g && g == b,
    ensures
        rgb_ansi(r, g, b) == 16 || rgb_ansi(r, g, b) == 231 || 232 <= rgb_ansi(r, g, b) <= 255,
{
}

/// Cube invariant: a triple whose channels are not all equal quantizes into
/// the 6x6x6 color cube (16..=231).
pub proof fn lemma_cube_band(r: u8, g: u8, b: u8)
    requires
        !(r == g && g == b),
    ensures
        16 <= rgb_ansi(r, g, b) <= 231,
{
}

/// The ANSI code a code's own RGB triple quantizes back to.
spec fn requantized(code: u8) -> u8 {
    rgb_ansi(ansi_rgb(code).0, ansi_rgb(code).1, ansi_rgb(code).2)
}

/// A cube axis value reads back as its own index.
proof fn lemma_cube_index_of_value(x: int)
    requires
        0 <= x <= 5,
    ensures
        cube_index_of(cube_channel_value(x)) == x,
{
}

/// Codes produced by grayscale quantization requantize to themselves.
proof fn lemma_requantize_gray_code(c: u8)
    requires
        c == 16 || c == 231 || 232 <= c <= 255,
    ensures
        requantized(c) == c,
{
    if c == 16 {
        assert(ansi_rgb(16) == (0u8, 0u8, 0u8));
    } else if c == 231 {
        assert(ansi_rgb(231) == (255u8, 255u8, 255u8));
    } else {
        let v = gray_channel_value(c);
        assert(v == (c - 231) * 10 - 2);
        assert(gray_level_of(v) == c - 231);
    }
}

/// A cube code whose axis indices are not all equal requantizes to itself.
proof fn lemma_requantize_cube_code(i: int, j: int, k: int)
    requires
        0 <= i <= 5,
        0 <= j <= 5,
        0 <= k <= 5,
        !(i == j && j == k),
    ensures
        requantized((16 + 36 * i + 6 * j + k) as u8) == (16 + 36 * i + 6 * j + k) as u8,
{
    let c = (16 + 36 * i + 6 * j + k) as u8;
    let idx = c - 16;
    assert(idx == 36 * i + 6 * j + k);
    assert(idx as int / 36 == i && idx as int / 6 % 6 == j && idx as int % 6 == k)
        by (nonlinear_arith)
        requires
            idx == 36 * i + 6 * j + k,
            0 <= i <= 5,
            0 <= j <= 5,
            0 <= k <= 5,
    ;
    let r = cube_channel_value(i);
    let g = cube_channel_value(j);
    let b = cube_channel_value(k);
    assert(ansi_rgb(c) == (r, g, b));
    lemma_cube_index_of_value(i);
    lemma_cube_index_of_value(j);
    lemma_cube_index_of_value(k);
    assert(!(r == g && g == b));
}

/// Requantizing any code's RGB triple reaches a fixed point in one step.
proof fn lemma_requantize_fixed(code: u8)
    ensures
        requantized(requantized(code)) == requantized(code),
{
    let r = ansi_rgb(code).0;
    let g = ansi_rgb(code).1;
    let b = ansi_rgb(code).2;
    if r == g && b == g {
        let level = gray_level_of(r);
        if level < 1 {
            lemma_requantize_gray_code(16);
        } else if level > 24 {
            lemma_requantize_gray_code(231);
        } else {
            lemma_requantize_gray_code((231 + level) as u8);
        }
    } else {
        let i = cube_index_of(r);
        let j = cube_index_of(g);
        let k = cube_index_of(b);
        if code <= 6 {
            assert(!(i == j && j == k));
        } else if code <= 15 {
            assert(!(i == j && j == k));
        } else if code <= 231 {
            let idx = code - 16;
            lemma_cube_index_of_value(idx as int / 36);
            lemma_cube_index_of_value(idx as int / 6 % 6);
            lemma_cube_index_of_value(idx as int % 6);
            assert(!(i == j && j == k));
        }
        lemma_requantize_cube_code(i, j, k);
    }
}

/// Round trip: converting a code to hex and requantizing collapses cube and
/// grayscale neighborhoods, but the collapse is idempotent: requantizing the
/// collapsed code's hex gives the collapsed code again.
pub proof fn lemma_hex_ansi_requantize_stable(code: u8)
    ensures
        hex_ansi(ansi_hex_chars(hex_ansi(ansi_hex_chars(code)))) == hex_ansi(
            ansi_hex_chars(code),
        ),
{
    lemma_rgb_hex_parses_back(ansi_rgb(code).0, ansi_rgb(code).1, ansi_rgb(code).2);
    let c2 = hex_ansi(ansi_hex_chars(code));
    assert(c2 == requantized(code));
    lemma_rgb_hex_parses_back(ansi_rgb(c2).0, ansi_rgb(c2).1, ansi_rgb(c2).2);
    lemma_requantize_fixed(code);
}

} // verus!
