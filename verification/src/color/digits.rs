//! Hexadecimal and decimal digits: the mapping between digit characters and
//! their numeric values, and decimal rendering of small integers.

use vstd::prelude::*;
use vstd::string::StringExecFns;

verus! {

/// The uppercase digit character for a value below 16.
pub open spec fn hex_digit_char(d: int) -> char {
    if d == 0 {
        '0'
    } else if d == 1 {
        '1'
    } else if d == 2 {
        '2'
    } else if d == 3 {
        '3'
    } else if d == 4 {
        '4'
    } else if d == 5 {
        '5'
    } else if d == 6 {
        '6'
    } else if d == 7 {
        '7'
    } else if d == 8 {
        '8'
    } else if d == 9 {
        '9'
    } else if d == 10 {
        'A'
    } else if d == 11 {
        'B'
    } else if d == 12 {
        'C'
    } else if d == 13 {
        'D'
    } else if d == 14 {
        'E'
    } else {
        'F'
    }
}

/// Whether a character is an ASCII hexadecimal digit (`0-9`, `a-f`, `A-F`).
pub open spec fn is_hex_digit(c: char) -> bool {
    ||| '0' as u32 <= c as u32 && c as u32 <= '9' as u32
    ||| 'a' as u32 <= c as u32 && c as u32 <= 'f' as u32
    ||| 'A' as u32 <= c as u32 && c as u32 <= 'F' as u32
}

/// The numeric value of a hexadecimal digit character; meaningful only when
/// `is_hex_digit(c)` holds.
pub open spec fn hex_digit_value(c: char) -> int {
    if '0' as u32 <= c as u32 && c as u32 <= '9' as u32 {
        c as u32 - '0' as u32
    } else if 'a' as u32 <= c as u32 && c as u32 <= 'f' as u32 {
        c as u32 - 'a' as u32 + 10
    } else {
        c as u32 - 'A' as u32 + 10
    }
}

pub proof fn lemma_hex_digit_value_bounds(c: char)
    requires
        is_hex_digit(c),
    ensures
        0 <= hex_digit_value(c) < 16,
{
}

/// The digit character of a value below 16 is a hex digit and reads back as
/// that value.
pub proof fn lemma_hex_digit_char_value(d: int)
    requires
        0 <= d < 16,
    ensures
        is_hex_digit(hex_digit_char(d)),
        hex_digit_value(hex_digit_char(d)) == d,
{
}

/// The decimal digit characters of a nonnegative integer, most significant
/// first, with no leading zeros (a single `'0'` for zero).
pub open spec fn decimal_digits(n: nat) -> Seq<char>
    decreases n,
{
    if n < 10 {
        seq![hex_digit_char(n as int)]
    } else {
        decimal_digits(n / 10) + seq![hex_digit_char((n % 10) as int)]
    }
}

/// The decimal rendering of an integer: a leading `'-'` for negative values.
pub open spec fn decimal_int_chars(n: int) -> Seq<char> {
    if n < 0 {
        seq!['-'] + decimal_digits((-n) as nat)
    } else {
        decimal_digits(n as nat)
    }
}

/// The one-character string for a digit value below 16, uppercase.
pub fn hex_digit_str(d: u8) -> (r: &'static str)
    requires
        d < 16,
    ensures
        r@ == seq![hex_digit_char(d as int)],
{
    let r: &'static str = match d {
        0 => "0",
        1 => "1",
        2 => "2",
        3 => "3",
        4 => "4",
        5 => "5",
        6 => "6",
        7 => "7",
        8 => "8",
        9 => "9",
        10 => "A",
        11 => "B",
        12 => "C",
        13 => "D",
        14 => "E",
        _ => "F",
    };
    proof {
        reveal_strlit("0");
        reveal_strlit("1");
        reveal_strlit("2");
        reveal_strlit("3");
        reveal_strlit("4");
        reveal_strlit("5");
        reveal_strlit("6");
        reveal_strlit("7");
        reveal_strlit("8");
        reveal_strlit("9");
        reveal_strlit("A");
        reveal_strlit("B");
        reveal_strlit("C");
        reveal_strlit("D");
        reveal_strlit("E");
        reveal_strlit("F");
        assert(r@ =~= seq![hex_digit_char(d as int)]);
    }
    r
}

/// Renders a nonnegative integer in decimal.
pub fn decimal_u32_string(n: u32) -> (r: String)
    ensures
        r@ == decimal_digits(n as nat),
    decreases n,
{
    if n < 10 {
        let s = hex_digit_str(n as u8).to_owned();
        s
    } else {
        let prefix = decimal_u32_string(n / 10);
        let r = prefix.concat(hex_digit_str((n % 10) as u8));
        proof {
            assert(r@ =~= decimal_digits(n as nat));
        }
        r
    }
}

/// Renders an integer in decimal, with a leading `-` when it is negative.
pub fn decimal_i32_string(n: i32) -> (r: String)
    ensures
        r@ == decimal_int_chars(n as int),
{
    if n < 0 {
        let magnitude = -(n as i64);
        let mut s = String::new();
        s.append("-");
        let digits = decimal_u32_string(magnitude as u32);
        s.append(digits.as_str());
        proof {
            reveal_strlit("-");
            assert(s@ =~= decimal_int_chars(n as int));
        }
        s
    } else {
        decimal_u32_string(n as u32)
    }
}

} // verus!
