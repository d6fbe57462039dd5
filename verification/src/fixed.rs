//! Fixed-point quantities.
//!
//! Percentages, quotas and speeds are carried as signed counts of
//! thousandths, so that every threshold and every rounding rule is exact
//! integer arithmetic.

use vstd::prelude::*;
use vstd::string::StringExecFns;
use crate::text::decimal_text;
use crate::text::digit_char;
use crate::text::digit_str;
use crate::text::push_decimal;

verus! {

/// `n / d` rounded to the nearest integer, a tie going to the even neighbour.
pub open spec fn round_half_even(n: nat, d: nat) -> nat
    recommends
        d > 0,
{
    let q = n / d;
    let r = n % d;
    if 2 * r > d || (2 * r == d && q % 2 == 1) {
        q + 1
    } else {
        q
    }
}

/// The absolute value of an integer.
pub open spec fn magnitude(i: int) -> nat {
    if i < 0 {
        (-i) as nat
    } else {
        i as nat
    }
}

/// The sign that a quantity is written with: a minus for every negative
/// quantity, including one that rounds to zero.
pub open spec fn sign_text(milli: int) -> Seq<char> {
    if milli < 0 {
        seq!['-']
    } else {
        Seq::empty()
    }
}

/// A quantity of thousandths written with no decimals.
pub open spec fn whole_text(milli: int) -> Seq<char> {
    sign_text(milli) + decimal_text(round_half_even(magnitude(milli), 1000))
}

/// The numeral of a count of tenths: the whole part, a point, one decimal.
pub open spec fn tenths_numeral(tenths: nat) -> Seq<char> {
    decimal_text(tenths / 10) + seq!['.', digit_char((tenths % 10) as int)]
}

/// A quantity of thousandths written with one decimal.
pub open spec fn one_decimal_text(milli: int) -> Seq<char> {
    sign_text(milli) + tenths_numeral(round_half_even(magnitude(milli), 100))
}

/// The absolute value of `i`.
pub fn abs_of(i: i64) -> (r: u128)
    ensures
        r == magnitude(i as int),
        r <= 0x8000_0000_0000_0000,
{
    if i < 0 {
        (-(i as i128)) as u128
    } else {
        i as u128
    }
}

/// `n / d` rounded to the nearest integer, a tie going to the even neighbour.
pub fn round_half_even_exec(n: u128, d: u128) -> (r: u128)
    requires
        0 < d <= 0x1_0000_0000,
        n <= 0x1_0000_0000_0000_0000,
    ensures
        r == round_half_even(n as nat, d as nat),
        r <= n,
{
    let q: u128 = n / d;
    let r: u128 = n % d;
    assert(q <= n) by (nonlinear_arith)
        requires
            q == n / d,
            d >= 1,
    ;
    assert(r > 0 ==> q < n) by (nonlinear_arith)
        requires
            q == n / d,
            r == n % d,
            d >= 1,
    ;
    if 2 * r > d || (2 * r == d && q % 2 == 1) {
        q + 1
    } else {
        q
    }
}

/// Appends the sign of a quantity to `out`.
fn push_sign(out: &mut String, milli: i64)
    ensures
        final(out)@ == old(out)@ + sign_text(milli as int),
{
    if milli < 0 {
        proof {
            reveal_strlit("-");
        }
        out.append("-");
        assert(out@ =~= old(out)@ + sign_text(milli as int));
    } else {
        assert(out@ =~= old(out)@ + sign_text(milli as int));
    }
}

/// Appends a quantity of thousandths, written with no decimals.
pub fn push_whole(out: &mut String, milli: i64)
    ensures
        final(out)@ == old(out)@ + whole_text(milli as int),
{
    push_sign(out, milli);
    let rounded = round_half_even_exec(abs_of(milli), 1000);
    push_decimal(out, rounded);
    assert(out@ =~= old(out)@ + whole_text(milli as int));
}

/// Appends the numeral of a count of tenths.
pub fn push_tenths(out: &mut String, tenths: u128)
    ensures
        final(out)@ == old(out)@ + tenths_numeral(tenths as nat),
{
    push_decimal(out, tenths / 10);
    proof {
        reveal_strlit(".");
    }
    out.append(".");
    out.append(digit_str((tenths % 10) as u8));
    assert(out@ =~= old(out)@ + tenths_numeral(tenths as nat));
}

/// Appends a quantity of thousandths, written with one decimal.
pub fn push_one_decimal(out: &mut String, milli: i64)
    ensures
        final(out)@ == old(out)@ + one_decimal_text(milli as int),
{
    push_sign(out, milli);
    let tenths = round_half_even_exec(abs_of(milli), 100);
    push_tenths(out, tenths);
    assert(out@ =~= old(out)@ + one_decimal_text(milli as int));
}

} // verus!
