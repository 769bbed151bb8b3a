//! The SGR escape wrapping and the containers it can be applied to.

use vstd::prelude::*;
use vstd::string::StringExecFns;

verus! {

/// The SGR escape wrapping of a text: `ESC[` + parameters + `m`, the text,
/// then the reset `ESC[0m`.
pub open spec fn sgr_wrap(params: Seq<char>, text: Seq<char>) -> Seq<char> {
    seq!['\x1b', '['] + params + seq!['m'] + text + seq!['\x1b', '[', '0', 'm']
}

/// The SGR parameters selecting an indexed foreground color: `38;5;` and the
/// decimal code.
pub open spec fn fg_params(code: Seq<char>) -> Seq<char> {
    seq!['3', '8', ';', '5', ';'] + code
}

/// The SGR parameters selecting an indexed background color: `48;5;` and the
/// decimal code.
pub open spec fn bg_params(code: Seq<char>) -> Seq<char> {
    seq!['4', '8', ';', '5', ';'] + code
}

/// Wraps one string in the SGR escape sequence for the given parameters.
pub fn wrap_sgr(params: &str, text: &str) -> (r: String)
    ensures
        r@ == sgr_wrap(params@, text@),
{
    let mut s = String::new();
    s.append("\x1b[");
    s.append(params);
    s.append("m");
    s.append(text);
    s.append("\x1b[0m");
    proof {
        reveal_strlit("\x1b[");
        reveal_strlit("m");
        reveal_strlit("\x1b[0m");
        assert(s@ =~= sgr_wrap(params@, text@));
    }
    s
}

/// A text container an SGR wrapping applies to: a single string, a flat
/// sequence of strings (applied independently and positionally), or a
/// rectangular grid of strings (applied cell-wise, preserving shape).
pub trait Stylable {
    type Output;

    /// Whether `out` is this container with every element wrapped in the SGR
    /// escape sequence for `params`.
    spec fn applied_sgr(&self, params: Seq<char>, out: &Self::Output) -> bool;

    /// Wraps every element in the SGR escape sequence for `params`.
    fn apply(&self, params: &str) -> (out: Self::Output)
        ensures
            self.applied_sgr(params@, &out),
    ;
}

impl Stylable for String {
    type Output = String;

    open spec fn applied_sgr(&self, params: Seq<char>, out: &String) -> bool {
        out@ == sgr_wrap(params, self@)
    }

    fn apply(&self, params: &str) -> (out: String) {
        wrap_sgr(params, self.as_str())
    }
}

impl Stylable for &str {
    type Output = String;

    open spec fn applied_sgr(&self, params: Seq<char>, out: &String) -> bool {
        out@ == sgr_wrap(params, self@)
    }

    fn apply(&self, params: &str) -> (out: String) {
        wrap_sgr(params, *self)
    }
}

impl Stylable for &String {
    type Output = String;

    open spec fn applied_sgr(&self, params: Seq<char>, out: &String) -> bool {
        out@ == sgr_wrap(params, self@)
    }

    fn apply(&self, params: &str) -> (out: String) {
        wrap_sgr(params, (*self).as_str())
    }
}

impl Stylable for Vec<String> {
    type Output = Vec<String>;

    open spec fn applied_sgr(&self, params: Seq<char>, out: &Vec<String>) -> bool {
        &&& out@.len() == self@.len()
        &&& forall|i: int|
            0 <= i < self@.len() ==> #[trigger] out@[i]@ == sgr_wrap(params, self@[i]@)
    }

    fn apply(&self, params: &str) -> (out: Vec<String>) {
        let mut out: Vec<String> = Vec::new();
        let mut i: usize = 0;
        while i < self.len()
            invariant
                i <= self@.len(),
                out@.len() == i as int,
                forall|j: int|
                    0 <= j < i ==> #[trigger] out@[j]@ == sgr_wrap(params@, self@[j]@),
            decreases self@.len() - i,
        {
            let w = wrap_sgr(params, self[i].as_str());
            out.push(w);
            i += 1;
        }
        out
    }
}

impl Stylable for Vec<Vec<String>> {
    type Output = Vec<Vec<String>>;

    open spec fn applied_sgr(&self, params: Seq<char>, out: &Vec<Vec<String>>) -> bool {
        &&& out@.len() == self@.len()
        &&& forall|i: int|
            0 <= i < self@.len() ==> #[trigger] out@[i]@.len() == self@[i]@.len()
        &&& forall|i: int, j: int|
            0 <= i < self@.len() && 0 <= j < self@[i]@.len() ==> #[trigger] out@[i]@[j]@
                == sgr_wrap(params, self@[i]@[j]@)
    }

    fn apply(&self, params: &str) -> (out: Vec<Vec<String>>) {
        let mut out: Vec<Vec<String>> = Vec::new();
        let mut i: usize = 0;
        while i < self.len()
            invariant
                i <= self@.len(),
                out@.len() == i as int,
                forall|k: int| 0 <= k < i ==> #[trigger] out@[k]@.len() == self@[k]@.len(),
                forall|k: int, j: int|
                    0 <= k < i && 0 <= j < self@[k]@.len() ==> #[trigger] out@[k]@[j]@
                        == sgr_wrap(params@, self@[k]@[j]@),
            decreases self@.len() - i,
        {
            let row = <Vec<String> as Stylable>::apply(&self[i], params);
            out.push(row);
            i += 1;
        }
        out
    }
}

impl Stylable for &Vec<String> {
    type Output = Vec<String>;

    open spec fn applied_sgr(&self, params: Seq<char>, out: &Vec<String>) -> bool {
        &&& out@.len() == self@.len()
        &&& forall|i: int|
            0 <= i < self@.len() ==> #[trigger] out@[i]@ == sgr_wrap(params, self@[i]@)
    }

    fn apply(&self, params: &str) -> (out: Vec<String>) {
        <Vec<String> as Stylable>::apply(*self, params)
    }
}

impl Stylable for &Vec<Vec<String>> {
    type Output = Vec<Vec<String>>;

    open spec fn applied_sgr(&self, params: Seq<char>, out: &Vec<Vec<String>>) -> bool {
        &&& out@.len() == self@.len()
        &&& forall|i: int|
            0 <= i < self@.len() ==> #[trigger] out@[i]@.len() == self@[i]@.len()
        &&& forall|i: int, j: int|
            0 <= i < self@.len() && 0 <= j < self@[i]@.len() ==> #[trigger] out@[i]@[j]@
                == sgr_wrap(params, self@[i]@[j]@)
    }

    fn apply(&self, params: &str) -> (out: Vec<Vec<String>>) {
        <Vec<Vec<String>> as Stylable>::apply(*self, params)
    }
}

} // verus!
