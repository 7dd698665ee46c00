//! Case-folding transforms used to derive module and type names from the raw
//! schema strings. The folds themselves are done by the `heck` crate; their
//! results are pure functions of the input characters, so they are given
//! names that the rest of the library's contracts can speak of.

use heck::CamelCase;
use heck::SnakeCase;
use vstd::prelude::*;

verus! {

/// The snake_case fold of `s`, as `heck` computes it.
pub uninterp spec fn snake_of(s: Seq<char>) -> Seq<char>;

/// The CamelCase fold of `s`, as `heck` computes it.
pub uninterp spec fn camel_of(s: Seq<char>) -> Seq<char>;

/// Whether `c` counts as a numeric character, as `char::is_numeric` decides
/// it.
pub uninterp spec fn numeric_char(c: char) -> bool;

/// Relies on heck's `SnakeCase::to_snake_case`: the result depends on the
/// characters of the input alone.
#[verifier::external_body]
pub(crate) fn to_snake_case(s: &str) -> (r: String)
    ensures
        r@ == snake_of(s@),
{
    SnakeCase::to_snake_case(s)
}

/// Relies on heck's `CamelCase::to_camel_case`: the result depends on the
/// characters of the input alone.
#[verifier::external_body]
pub(crate) fn to_camel_case(s: &str) -> (r: String)
    ensures
        r@ == camel_of(s@),
{
    CamelCase::to_camel_case(s)
}

/// Relies on `char::is_numeric`, which vstd does not specify. Its
/// documentation guarantees that the `Nd` category, and with it every ASCII
/// digit, is numeric.
#[verifier::external_body]
pub(crate) fn is_numeric_char(c: char) -> (r: bool)
    ensures
        r == numeric_char(c),
        '0' <= c <= '9' ==> r,
{
    c.is_numeric()
}

} // verus!
