//! 256-color foreground and background selection on a single string slice.

use vstd::prelude::*;
use vstd::string::StringExecFns;

use crate::color::ansi::{ansi_from_color_definition, IntoColorString};
use crate::color::error::ColorConversionError;
use crate::format::stylable::{bg_params, fg_params, sgr_wrap, wrap_sgr};

verus! {

/// Wraps the text in the foreground color the specification resolves to; an
/// ill-formed specification is rejected.
pub fn color<T: IntoColorString>(color_input: T, text: &str) -> (r: Result<
    String,
    ColorConversionError,
>)
    ensures
        color_input.color_string_ok() ==> (r matches Ok(s) && s@ == sgr_wrap(
            fg_params(color_input.color_string_chars()),
            text@,
        )),
        !color_input.color_string_ok() ==> (r matches Err(e) && color_input.color_string_err(e)),
{
    let code = match ansi_from_color_definition(color_input) {
        Err(e) => {
            return Err(e);
        },
        Ok(c) => c,
    };
    let mut params = "38;5;".to_owned();
    params.append(code.as_str());
    proof {
        reveal_strlit("38;5;");
        assert(params@ =~= fg_params(color_input.color_string_chars()));
    }
    Ok(wrap_sgr(params.as_str(), text))
}

/// Wraps the text in the background color the specification resolves to; an
/// ill-formed specification is rejected.
pub fn background<T: IntoColorString>(color_input: T, text: &str) -> (r: Result<
    String,
    ColorConversionError,
>)
    ensures
        color_input.color_string_ok() ==> (r matches Ok(s) && s@ == sgr_wrap(
            bg_params(color_input.color_string_chars()),
            text@,
        )),
        !color_input.color_string_ok() ==> (r matches Err(e) && color_input.color_string_err(e)),
{
    let code = match ansi_from_color_definition(color_input) {
        Err(e) => {
            return Err(e);
        },
        Ok(c) => c,
    };
    let mut params = "48;5;".to_owned();
    params.append(code.as_str());
    proof {
        reveal_strlit("48;5;");
        assert(params@ =~= bg_params(color_input.color_string_chars()));
    }
    Ok(wrap_sgr(params.as_str(), text))
}

} // verus!
