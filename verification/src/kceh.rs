//! From the names that programs use to the text that people read.
//!
//! Only ASCII letters are capitalised.

use crate::text::{ascii_upper, push_char, to_ascii_upper};
use vstd::prelude::*;
use vstd::string::StrSliceExecFns;

verus! {

/// How the words of the input are joined.
#[derive(PartialEq, Eq, Copy, Clone, Debug, Structural)]
pub enum Input {
    /// snake_case
    SnakeCase,
}

/// How the words of the output are joined.
#[derive(PartialEq, Eq, Copy, Clone, Debug, Structural)]
pub enum Output {
    /// Capitalize the first letter.
    Statement,
}

/// The statement for the snake-case name `s`: every `_` gives way to a
/// space, and the first character is capitalised.
pub open spec fn statement(s: Seq<char>) -> Seq<char> {
    Seq::new(
        s.len(),
        |i: int|
            {
                let c = if s[i] == '_' {
                    ' '
                } else {
                    s[i]
                };
                if i == 0 {
                    ascii_upper(c)
                } else {
                    c
                }
            },
    )
}

/// Rewrites `s` from the form `input` to the form `output`.
pub fn transform(s: &str, input: Input, output: Output) -> (r: String)
    ensures
        r@ == statement(s@),
{
    broadcast use vstd::string::axiom_spec_iter;

    let n = s.unicode_len();
    let mut r = String::new();
    let mut i: usize = 0;
    for c in it: s.chars()
        invariant
            it.seq() == s@,
            n == s@.len(),
            i == it.index(),
            r@ == statement(s@).take(i as int),
    {
        let c = if c == '_' {
            ' '
        } else {
            c
        };
        let c = if i == 0 {
            to_ascii_upper(c)
        } else {
            c
        };
        push_char(&mut r, c);
        i = i + 1;
        assert(r@ =~= statement(s@).take(i as int));
    }
    assert(statement(s@).take(i as int) =~= statement(s@));
    r
}

/// Transform `snake_case` to `Statement`.
pub fn snake_case_to_statement(s: &str) -> (r: String)
    ensures
        r@ == statement(s@),
{
    transform(s, Input::SnakeCase, Output::Statement)
}

} // verus!
