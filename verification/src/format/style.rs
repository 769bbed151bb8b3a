//! Fixed style attributes on a single string slice.

use vstd::prelude::*;

use crate::format::stylable::{sgr_wrap, wrap_sgr};

verus! {

/// Wraps the text in the SGR bold attribute.
pub fn bold(text: &str) -> (r: String)
    ensures
        r@ == sgr_wrap(seq!['1'], text@),
{
    proof {
        reveal_strlit("1");
        assert("1"@ =~= seq!['1']);
    }
    wrap_sgr("1", text)
}

/// Wraps the text in the SGR italic attribute.
pub fn italic(text: &str) -> (r: String)
    ensures
        r@ == sgr_wrap(seq!['3'], text@),
{
    proof {
        reveal_strlit("3");
        assert("3"@ =~= seq!['3']);
    }
    wrap_sgr("3", text)
}

/// Wraps the text in the SGR faint attribute.
pub fn faint(text: &str) -> (r: String)
    ensures
        r@ == sgr_wrap(seq!['2'], text@),
{
    proof {
        reveal_strlit("2");
        assert("2"@ =~= seq!['2']);
    }
    wrap_sgr("2", text)
}

/// Wraps the text in the SGR inverse attribute.
pub fn inverse(text: &str) -> (r: String)
    ensures
        r@ == sgr_wrap(seq!['7'], text@),
{
    proof {
        reveal_strlit("7");
        assert("7"@ =~= seq!['7']);
    }
    wrap_sgr("7", text)
}

} // verus!
