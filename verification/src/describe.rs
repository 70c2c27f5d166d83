//! Short descriptions of an integer: its sign, its name where it has one,
//! and the range it falls into.

use vstd::prelude::*;

verus! {

/// The description of the sign of `x`.
pub open spec fn sign_text(x: int) -> Seq<char> {
    if x > 0 {
        "Positive number"@
    } else if x < 0 {
        "Negative number"@
    } else {
        "Zero"@
    }
}

/// The name of `x` where it is one or two, and a catch-all text otherwise.
pub open spec fn name_text(x: int) -> Seq<char> {
    if x == 1 {
        "One"@
    } else if x == 2 {
        "Two"@
    } else {
        "Something else"@
    }
}

/// The description of the range that `x` falls into: one; two or three;
/// four to ten inclusive; anything else.
pub open spec fn range_text(x: int) -> Seq<char> {
    if x == 1 {
        "One"@
    } else if x == 2 || x == 3 {
        "Two ya Three"@
    } else if 4 <= x <= 10 {
        "Four se leke Ten ke beech"@
    } else {
        "Kuch aur"@
    }
}

/// Says whether `x` is positive, negative or zero.
pub fn sign_message(x: i32) -> (text: &'static str)
    ensures
        text@ == sign_text(x as int),
{
    if x > 0 {
        "Positive number"
    } else if x < 0 {
        "Negative number"
    } else {
        "Zero"
    }
}

/// Names `x` where it is one or two.
pub fn number_name(x: i32) -> (text: &'static str)
    ensures
        text@ == name_text(x as int),
{
    match x {
        1 => "One",
        2 => "Two",
        _ => "Something else",
    }
}

/// Describes `x` the way a two-step decision does: first by its sign, then
/// by its name.
pub fn control_flow(x: i32) -> (lines: (&'static str, &'static str))
    ensures
        lines.0@ == sign_text(x as int),
        lines.1@ == name_text(x as int),
{
    (sign_message(x), number_name(x))
}

/// Says which range `x` falls into.
pub fn match_example(x: i32) -> (text: &'static str)
    ensures
        text@ == range_text(x as int),
{
    match x {
        1 => "One",
        2 | 3 => "Two ya Three",
        4..=10 => "Four se leke Ten ke beech",
        _ => "Kuch aur",
    }
}

} // verus!
