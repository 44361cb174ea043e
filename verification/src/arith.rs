//! Percentage arithmetic: the facts about `amount * percent / 100` that the
//! withdrawal and refund calculators rest on.

use vstd::arithmetic::div_mod::lemma_div_is_ordered;
use vstd::arithmetic::div_mod::lemma_div_multiples_vanish;
use vstd::arithmetic::div_mod::lemma_div_pos_is_pos;
use vstd::arithmetic::div_mod::lemma_remainder_lower;
use vstd::arithmetic::mul::lemma_mul_inequality;
use vstd::arithmetic::mul::lemma_mul_is_commutative;
use vstd::arithmetic::mul::lemma_mul_nonnegative;
use vstd::prelude::*;

verus! {

/// `share` percent of `amount`, rounded down.
pub open spec fn portion(amount: int, share: int) -> int {
    (amount * share) / 100
}

/// A portion of a nonnegative amount under a share of at most 100 percent
/// lies between 0 and the amount.
pub proof fn lemma_portion_bounds(amount: int, share: int)
    requires
        0 <= amount,
        0 <= share <= 100,
    ensures
        0 <= portion(amount, share) <= amount,
{
    lemma_mul_nonnegative(amount, share);
    lemma_div_pos_is_pos(amount * share, 100);
    lemma_mul_inequality(share, 100, amount);
    lemma_mul_is_commutative(share, amount);
    lemma_mul_is_commutative(100, amount);
    lemma_div_is_ordered(amount * share, amount * 100, 100);
    lemma_mul_is_commutative(amount, 100);
    lemma_div_multiples_vanish(amount, 100);
    assert(100 * amount == amount * 100);
}

/// A portion grows with the amount.
pub proof fn lemma_portion_monotone_amount(a1: int, a2: int, share: int)
    requires
        0 <= a1 <= a2,
        0 <= share,
    ensures
        portion(a1, share) <= portion(a2, share),
{
    lemma_mul_inequality(a1, a2, share);
    lemma_div_is_ordered(a1 * share, a2 * share, 100);
}

/// A portion grows with the share.
pub proof fn lemma_portion_monotone_share(amount: int, s1: int, s2: int)
    requires
        0 <= amount,
        0 <= s1 <= s2,
    ensures
        portion(amount, s1) <= portion(amount, s2),
{
    lemma_mul_inequality(s1, s2, amount);
    lemma_mul_is_commutative(s1, amount);
    lemma_mul_is_commutative(s2, amount);
    lemma_div_is_ordered(amount * s1, amount * s2, 100);
}

/// Rounding down in a division loses at most the remainder:
/// `(a / d) * d <= a`.
pub proof fn lemma_div_mul_le(a: int, d: int)
    requires
        0 <= a,
        0 < d,
    ensures
        (a / d) * d <= a,
{
    lemma_remainder_lower(a, d);
}

/// The product of two values bounded by `u64::MAX` fits in `u128`.
pub proof fn lemma_u64_mul_fits_u128(a: int, b: int)
    requires
        0 <= a <= u64::MAX,
        0 <= b <= u64::MAX,
    ensures
        0 <= a * b <= u64::MAX * u64::MAX,
{
    lemma_mul_nonnegative(a, b);
    vstd::arithmetic::mul::lemma_mul_upper_bound(a, u64::MAX as int, b, u64::MAX as int);
}

/// A fraction `q / r` of a nonnegative value, with `q <= r`, lies between
/// 0 and the value.
pub proof fn lemma_fraction_le(v: int, q: int, r: int)
    requires
        0 <= v,
        0 <= q <= r,
        0 < r,
    ensures
        0 <= (v * q) / r <= v,
{
    lemma_mul_nonnegative(v, q);
    lemma_div_pos_is_pos(v * q, r);
    lemma_mul_inequality(q, r, v);
    lemma_mul_is_commutative(q, v);
    lemma_mul_is_commutative(r, v);
    lemma_div_is_ordered(v * q, v * r, r);
    vstd::arithmetic::div_mod::lemma_div_by_multiple(v, r);
}

} // verus!
