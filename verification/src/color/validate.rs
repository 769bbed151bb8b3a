//! Well-formedness checks that gate raw hex strings and raw ANSI integers
//! before conversion.

use vstd::prelude::*;
use vstd::string::{StrSliceExecFns, StringExecFns};

use crate::color::digits::is_hex_digit;
use crate::color::error::ColorConversionError;

verus! {

/// The input with one optional leading `#` removed.
pub open spec fn strip_hash(s: Seq<char>) -> Seq<char> {
    if s.len() > 0 && s[0] == '#' {
        s.subrange(1, s.len() as int)
    } else {
        s
    }
}

/// Whether the input is a well-formed hex color: after stripping one
/// optional leading `#`, exactly 3 or 6 ASCII hexadecimal digits remain.
pub open spec fn valid_hex(s: Seq<char>) -> bool {
    let h = strip_hash(s);
    &&& (h.len() == 3 || h.len() == 6)
    &&& forall|i: int| 0 <= i < h.len() ==> is_hex_digit(#[trigger] h[i])
}

/// The diagnostic carried by `ColorConversionError::InvalidHex`.
pub open spec fn invalid_hex_message(s: Seq<char>) -> Seq<char> {
    "Expected 3 or 6-digit hex string, got: "@ + s
}

/// Whether a character is an ASCII hexadecimal digit.
fn is_hex_digit_char(c: char) -> (r: bool)
    ensures
        r == is_hex_digit(c),
{
    let u = c as u32;
    ('0' as u32 <= u && u <= '9' as u32) || ('a' as u32 <= u && u <= 'f' as u32) || ('A' as u32
        <= u && u <= 'F' as u32)
}

/// Builds the `InvalidHex` error for a rejected input.
fn invalid_hex_error(input: &str) -> (e: ColorConversionError)
    ensures
        e matches ColorConversionError::InvalidHex(m) && m@ == invalid_hex_message(input@),
{
    let mut m = "Expected 3 or 6-digit hex string, got: ".to_owned();
    m.append(input);
    proof {
        reveal_strlit("Expected 3 or 6-digit hex string, got: ");
    }
    ColorConversionError::InvalidHex(m)
}

/// Validates whether a string is a 3- or 6-digit hexadecimal color, with or
/// without one leading `#`. Accepts exactly the inputs that [`valid_hex`]
/// describes; every rejection carries the offending input.
pub fn validate_hex(input: &str) -> (r: Result<(), ColorConversionError>)
    ensures
        r is Ok <==> valid_hex(input@),
        !valid_hex(input@) ==> (r matches Err(ColorConversionError::InvalidHex(m)) && m@
            == invalid_hex_message(input@)),
{
    let n = input.unicode_len();
    let off: usize = if n > 0 && input.get_char(0) == '#' {
        1
    } else {
        0
    };
    let len = n - off;
    proof {
        assert(strip_hash(input@) =~= input@.subrange(off as int, n as int));
    }
    if !(len == 6 || len == 3) {
        return Err(invalid_hex_error(input));
    }
    let mut i: usize = 0;
    while i < len
        invariant
            i <= len,
            off + len == n == input@.len(),
            strip_hash(input@) =~= input@.subrange(off as int, n as int),
            forall|j: int| 0 <= j < i ==> is_hex_digit(#[trigger] strip_hash(input@)[j]),
        decreases len - i,
    {
        proof {
            let k = i as int;
            assert(strip_hash(input@)[k] == input@.subrange(off as int, n as int)[k]);
        }
        if !is_hex_digit_char(input.get_char(off + i)) {
            return Err(invalid_hex_error(input));
        }
        i += 1;
    }
    Ok(())
}

/// Validates that an ANSI color value lies in 0..=255; every rejection
/// carries the offending value.
pub fn validate_ansi(value: i32) -> (r: Result<(), ColorConversionError>)
    ensures
        r is Ok <==> 0 <= value <= 255,
        !(0 <= value <= 255) ==> r == Result::<(), ColorConversionError>::Err(
            ColorConversionError::InvalidAnsiValue(value),
        ),
{
    if value < 0 || value > 255 {
        return Err(ColorConversionError::InvalidAnsiValue(value));
    }
    Ok(())
}

} // verus!
