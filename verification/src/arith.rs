//! Page-rounding arithmetic: rounding a byte count up to the next whole
//! multiple of a unit, and recognising powers of two.

use vstd::prelude::*;
use vstd::arithmetic::div_mod::{
    lemma_div_is_ordered, lemma_fundamental_div_mod, lemma_fundamental_div_mod_converse,
    lemma_mod_division_less_than_divisor, lemma_mod_multiples_basic,
};

verus! {

/// `size` rounded up to the next multiple of `unit`: the smallest multiple of
/// `unit` that is at least `size`.
pub open spec fn round_up_to(size: int, unit: int) -> int
    recommends
        unit >= 1,
        size >= 0,
{
    if size % unit == 0 {
        size
    } else {
        size + (unit - size % unit)
    }
}

/// `n` is a power of two.
pub open spec fn is_pow2(n: int) -> bool
    decreases n,
{
    if n <= 0 {
        false
    } else if n == 1 {
        true
    } else {
        n % 2 == 0 && is_pow2(n / 2)
    }
}

/// Rounding up lands on a multiple of `unit` that is at least `size` and less
/// than `size + unit`.
pub proof fn lemma_round_up_properties(size: int, unit: int)
    requires
        unit >= 1,
        size >= 0,
    ensures
        size <= round_up_to(size, unit),
        round_up_to(size, unit) < size + unit,
        round_up_to(size, unit) % unit == 0,
{
    lemma_mod_division_less_than_divisor(size, unit);
    if size % unit != 0 {
        lemma_fundamental_div_mod(size, unit);
        let q = size / unit;
        assert(size + (unit - size % unit) == (q + 1) * unit) by (nonlinear_arith)
            requires
                size == unit * q + size % unit,
        ;
        lemma_fundamental_div_mod_converse(size + (unit - size % unit), unit, q + 1, 0);
    }
}

/// Rounding up agrees with the ceiling-division form:
/// `round_up_to(size, unit) == ((size + unit - 1) / unit) * unit`.
pub proof fn lemma_round_up_div_form(size: int, unit: int)
    requires
        unit >= 1,
        size >= 0,
    ensures
        round_up_to(size, unit) == ((size + unit - 1) / unit) * unit,
{
    lemma_mod_division_less_than_divisor(size, unit);
    lemma_fundamental_div_mod(size, unit);
    let q = size / unit;
    let r = size % unit;
    if r == 0 {
        assert(size + unit - 1 == q * unit + (unit - 1)) by (nonlinear_arith)
            requires
                size == unit * q,
        ;
        lemma_fundamental_div_mod_converse(size + unit - 1, unit, q, unit - 1);
        assert(((size + unit - 1) / unit) * unit == size) by (nonlinear_arith)
            requires
                (size + unit - 1) / unit == q,
                size == unit * q,
        ;
    } else {
        assert(size + unit - 1 == (q + 1) * unit + (r - 1)) by (nonlinear_arith)
            requires
                size == unit * q + r,
        ;
        lemma_fundamental_div_mod_converse(size + unit - 1, unit, q + 1, r - 1);
        assert(((size + unit - 1) / unit) * unit == size + (unit - r)) by (nonlinear_arith)
            requires
                (size + unit - 1) / unit == q + 1,
                size == unit * q + r,
        ;
    }
}

/// Rounding up is monotonic in the size.
pub proof fn lemma_round_up_mono(size1: int, size2: int, unit: int)
    requires
        unit >= 1,
        0 <= size1 <= size2,
    ensures
        round_up_to(size1, unit) <= round_up_to(size2, unit),
{
    lemma_round_up_div_form(size1, unit);
    lemma_round_up_div_form(size2, unit);
    lemma_div_is_ordered(size1 + unit - 1, size2 + unit - 1, unit);
    let d1 = (size1 + unit - 1) / unit;
    let d2 = (size2 + unit - 1) / unit;
    assert(d1 * unit <= d2 * unit) by (nonlinear_arith)
        requires
            d1 <= d2,
            unit >= 1,
    ;
}

/// A power of two divides every power of two at least as large.
pub proof fn lemma_pow2_divides(a: int, b: int)
    requires
        is_pow2(a),
        is_pow2(b),
        a <= b,
    ensures
        b % a == 0,
    decreases b,
{
    if a > 1 {
        lemma_div_is_ordered(a, b, 2);
        lemma_pow2_divides(a / 2, b / 2);
        lemma_fundamental_div_mod(b / 2, a / 2);
        lemma_fundamental_div_mod(a, 2);
        lemma_fundamental_div_mod(b, 2);
        let q = (b / 2) / (a / 2);
        lemma_mod_multiples_basic(q, a);
        assert(b == q * a) by (nonlinear_arith)
            requires
                b / 2 == (a / 2) * q,
                a == 2 * (a / 2),
                b == 2 * (b / 2),
        ;
    }
}

/// Rounds `size` up to the next multiple of `unit`.
pub fn pad_to(size: usize, unit: usize) -> (r: usize)
    requires
        unit >= 1,
        round_up_to(size as int, unit as int) <= usize::MAX,
    ensures
        r as int == round_up_to(size as int, unit as int),
{
    let rem = size % unit;
    if rem == 0 {
        size
    } else {
        size + (unit - rem)
    }
}

/// Decides whether `n` is a power of two.
pub fn is_power_of_two(n: usize) -> (r: bool)
    ensures
        r == is_pow2(n as int),
{
    if n == 0 {
        return false;
    }
    let mut m: usize = n;
    while m > 1
        invariant
            m >= 1,
            is_pow2(n as int) == is_pow2(m as int),
        decreases m,
    {
        if m % 2 != 0 {
            return false;
        }
        m = m / 2;
    }
    true
}

} // verus!
