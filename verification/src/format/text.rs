//! Style attributes and 256-color selection over any `Stylable` container.

use vstd::prelude::*;
use vstd::string::StringExecFns;

use crate::color::ansi::{ansi_from_color_definition, IntoColorString};
use crate::color::error::ColorConversionError;
use crate::format::stylable::{bg_params, fg_params, Stylable};

verus! {

/// Wraps every element in the SGR bold attribute.
pub fn bold<T: Stylable>(input: T) -> (r: T::Output)
    ensures
        input.applied_sgr(seq!['1'], &r),
{
    proof {
        reveal_strlit("1");
        assert("1"@ =~= seq!['1']);
    }
    input.apply("1")
}

/// Wraps every element in the SGR italic attribute.
pub fn italic<T: Stylable>(input: T) -> (r: T::Output)
    ensures
        input.applied_sgr(seq!['3'], &r),
{
    proof {
        reveal_strlit("3");
        assert("3"@ =~= seq!['3']);
    }
    input.apply("3")
}

/// Wraps every element in the SGR faint attribute.
pub fn faint<T: Stylable>(input: T) -> (r: T::Output)
    ensures
        input.applied_sgr(seq!['2'], &r),
{
    proof {
        reveal_strlit("2");
        assert("2"@ =~= seq!['2']);
    }
    input.apply("2")
}

/// Wraps every element in the SGR inverse attribute.
pub fn inverse<T: Stylable>(input: T) -> (r: T::Output)
    ensures
        input.applied_sgr(seq!['7'], &r),
{
    proof {
        reveal_strlit("7");
        assert("7"@ =~= seq!['7']);
    }
    input.apply("7")
}

/// Wraps every element in the SGR underline attribute.
pub fn underline<T: Stylable>(input: T) -> (r: T::Output)
    ensures
        input.applied_sgr(seq!['4'], &r),
{
    proof {
        reveal_strlit("4");
        assert("4"@ =~= seq!['4']);
    }
    input.apply("4")
}

/// Sets the foreground color of every element to the ANSI code the
/// specification resolves to; an ill-formed specification is rejected and
/// nothing is wrapped.
pub fn color<C: Copy + IntoColorString, T: Stylable>(color_input: C, text: T) -> (r: Result<
    T::Output,
    ColorConversionError,
>)
    ensures
        color_input.color_string_ok() ==> (r matches Ok(out) && text.applied_sgr(
            fg_params(color_input.color_string_chars()),
            &out,
        )),
        !color_input.color_string_ok() ==> (r matches Err(e) && color_input.color_string_err(e)),
{
    let code = match ansi_from_color_definition(color_input) {
        Err(e) => {
            return Err(e);
        },
        Ok(c) => c,
    };
    let mut params = "38;5;".to_owned();
    params.append(code.as_str());
    proof {
        reveal_strlit("38;5;");
        assert(params@ =~= fg_params(color_input.color_string_chars()));
    }
    Ok(text.apply(params.as_str()))
}

/// Sets the background color of every element to the ANSI code the
/// specification resolves to; an ill-formed specification is rejected and
/// nothing is wrapped.
pub fn background<C: Copy + IntoColorString, T: Stylable>(color_input: C, text: T) -> (r: Result<
    T::Output,
    ColorConversionError,
>)
    ensures
        color_input.color_string_ok() ==> (r matches Ok(out) && text.applied_sgr(
            bg_params(color_input.color_string_chars()),
            &out,
        )),
        !color_input.color_string_ok() ==> (r matches Err(e) && color_input.color_string_err(e)),
{
    let code = match ansi_from_color_definition(color_input) {
        Err(e) => {
            return Err(e);
        },
        Ok(c) => c,
    };
    let mut params = "48;5;".to_owned();
    params.append(code.as_str());
    proof {
        reveal_strlit("48;5;");
        assert(params@ =~= bg_params(color_input.color_string_chars()));
    }
    Ok(text.apply(params.as_str()))
}

} // verus!
