//! Integer addition, and truncating division that reports a zero divisor
//! as an error instead of failing.

use vstd::prelude::*;

verus! {

/// The text carried by the error that [`divide`] returns for a zero divisor.
pub const DIVISION_BY_ZERO: &'static str = "Zero se divide nahi kar sakte";

/// The absolute value of `x`.
pub open spec fn magnitude(x: int) -> int {
    if x < 0 {
        -x
    } else {
        x
    }
}

/// The quotient of `a` by `b` rounded toward zero, for `b != 0`.
///
/// Its magnitude is the whole number of times that `|b|` fits into `|a|`;
/// it is negated when the operands have opposite signs.
pub open spec fn trunc_div(a: int, b: int) -> int {
    if (a < 0) == (b < 0) {
        magnitude(a) / magnitude(b)
    } else {
        -(magnitude(a) / magnitude(b))
    }
}

/// Whether `a / b` rounded toward zero is representable as an `i32`.
/// The only pair with a nonzero divisor for which it is not is
/// `(i32::MIN, -1)`.
pub open spec fn quotient_fits(a: i32, b: i32) -> bool {
    !(a == i32::MIN && b == -1)
}

/// A whole-number quotient of a non-negative dividend by a positive divisor
/// lies between zero and the dividend, and strictly below a positive
/// dividend once the divisor exceeds one.
pub proof fn lemma_quotient_bounds(x: int, d: int)
    requires
        x >= 0,
        d > 0,
    ensures
        0 <= x / d <= x,
        d >= 2 && x > 0 ==> x / d < x,
{
    assert(0 <= x / d <= x && (d >= 2 && x > 0 ==> x / d < x)) by (nonlinear_arith)
        requires
            x >= 0,
            d > 0,
    ;
}

/// Truncating division rounds toward zero: what is left of the dividend
/// after taking away the quotient times the divisor is smaller in magnitude
/// than the divisor and, unless it is zero, has the sign of the dividend.
pub proof fn lemma_trunc_div_remainder(a: int, b: int)
    requires
        b != 0,
    ensures
        magnitude(a - trunc_div(a, b) * b) < magnitude(b),
        a >= 0 ==> a - trunc_div(a, b) * b >= 0,
        a <= 0 ==> a - trunc_div(a, b) * b <= 0,
{
    let x = magnitude(a);
    let d = magnitude(b);
    let k = x / d;
    vstd::arithmetic::div_mod::lemma_fundamental_div_mod(x, d);
    vstd::arithmetic::div_mod::lemma_mod_bound(x, d);
    assert(k * d == d * k && (-k) * d == -(d * k) && k * (-d) == -(d * k) && (-k) * (-d) == d
        * k) by (nonlinear_arith);
}

/// Of all multiples of the divisor that leave a remainder smaller than the
/// divisor and on the dividend's side of zero, the truncating quotient is
/// the only factor: a quotient with these properties is `trunc_div(a, b)`.
pub proof fn lemma_trunc_div_unique(a: int, b: int, q: int)
    requires
        b != 0,
        magnitude(a - q * b) < magnitude(b),
        a >= 0 ==> a - q * b >= 0,
        a <= 0 ==> a - q * b <= 0,
    ensures
        q == trunc_div(a, b),
{
    let t = trunc_div(a, b);
    lemma_trunc_div_remainder(a, b);
    assert(q == t) by (nonlinear_arith)
        requires
            b != 0,
            magnitude(a - q * b) < magnitude(b),
            magnitude(a - t * b) < magnitude(b),
            a >= 0 ==> a - q * b >= 0 && a - t * b >= 0,
            a <= 0 ==> a - q * b <= 0 && a - t * b <= 0,
    ;
}

/// The sum of two integers, for operands whose sum fits in an `i32`.
pub fn add(a: i32, b: i32) -> (sum: i32)
    requires
        i32::MIN <= a + b <= i32::MAX,
    ensures
        sum == a + b,
{
    a + b
}

/// Divides `a` by `b`, rounding toward zero.
///
/// A zero divisor is reported as an error carrying [`DIVISION_BY_ZERO`];
/// every other divisor yields the quotient.
pub fn divide(a: i32, b: i32) -> (r: Result<i32, String>)
    requires
        quotient_fits(a, b),
    ensures
        b == 0 <==> r is Err,
        r matches Err(msg) ==> msg@ == DIVISION_BY_ZERO@,
        r matches Ok(q) ==> q == trunc_div(a as int, b as int),
{
    if b == 0 {
        Err(DIVISION_BY_ZERO.to_string())
    } else {
        proof {
            lemma_quotient_bounds(magnitude(a as int), magnitude(b as int));
        }
        let q = a.checked_div(b);
        Ok(q.unwrap())
    }
}

} // verus!
