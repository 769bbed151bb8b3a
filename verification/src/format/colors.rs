//! 256-color foreground and background selection over any `Stylable`
//! container.

use vstd::prelude::*;
use vstd::string::StringExecFns;

use crate::color::ansi::{ansi_from_color_definition, IntoColorString};
use crate::color::error::ColorConversionError;
use crate::format::stylable::{bg_params, fg_params, Stylable};

verus! {

/// Sets the foreground color of every element to the ANSI code the
/// specification resolves to; an ill-formed specification is rejected and
/// nothing is wrapped.
pub fn color<C: Copy + IntoColorString, T: Stylable>(color_input: C, text: T) -> (r: Result<
    T::Output,
    ColorConversionError,
>)
    ensures
        color_input.color_string_ok() ==> (r matches Ok(out) && text.applied_sgr(
            fg_params(color_input.color_string_chars()),
            &out,
        )),
        !color_input.color_string_ok() ==> (r matches Err(e) && color_input.color_string_err(e)),
{
    let code = match ansi_from_color_definition(color_input) {
        Err(e) => {
            return Err(e);
        },
        Ok(c) => c,
    };
    let mut params = "38;5;".to_owned();
    params.append(code.as_str());
    proof {
        reveal_strlit("38;5;");
        assert(params@ =~= fg_params(color_input.color_string_chars()));
    }
    Ok(text.apply(params.as_str()))
}

/// Sets the background color of every element to the ANSI code the
/// specification resolves to; an ill-formed specification is rejected and
/// nothing is wrapped.
pub fn background<C: Copy + IntoColorString, T: Stylable>(color_input: C, text: T) -> (r: Result<
    T::Output,
    ColorConversionError,
>)
    ensures
        color_input.color_string_ok() ==> (r matches Ok(out) && text.applied_sgr(
            bg_params(color_input.color_string_chars()),
            &out,
        )),
        !color_input.color_string_ok() ==> (r matches Err(e) && color_input.color_string_err(e)),
{
    let code = match ansi_from_color_definition(color_input) {
        Err(e) => {
            return Err(e);
        },
        Ok(c) => c,
    };
    let mut params = "48;5;".to_owned();
    params.append(code.as_str());
    proof {
        reveal_strlit("48;5;");
        assert(params@ =~= bg_params(color_input.color_string_chars()));
    }
    Ok(text.apply(params.as_str()))
}

} // verus!
