//! The arithmetic policy: checked, fixed-ratio percentage math.
//!
//! Every risk check in the protocol is a floor of `value * numerator /
//! denominator`, computed in a 128-bit intermediate so the product cannot
//! overflow, and then narrowed back to the result width. The narrowing
//! keeps only the low bits, exactly as a fixed-width cast does;
//! the spec functions below state that wrapping behaviour directly, and
//! the lemmas say when no wrapping can occur.

use vstd::arithmetic::div_mod::{lemma_div_is_ordered, lemma_div_multiples_vanish, lemma_small_mod};
use vstd::arithmetic::mul::{lemma_mul_inequality, lemma_mul_nonnegative};
use vstd::prelude::*;

verus! {

/// The low 64 bits of a nonnegative integer, as a narrowing cast keeps them.
pub open spec fn wrap_u64(x: int) -> u64 {
    (x % 0x1_0000_0000_0000_0000) as u64
}

/// The low 8 bits of a nonnegative integer, as a narrowing cast keeps them.
pub open spec fn wrap_u8(x: int) -> u8 {
    (x % 0x100) as u8
}

/// The most a position with this much collateral may borrow:
/// `floor(collateral * ltv / 100)`, narrowed to 64 bits.
pub open spec fn max_borrow_spec(collateral: u64, ltv: u8) -> u64 {
    wrap_u64(collateral * ltv / 100)
}

/// The least collateral that must back this much debt:
/// `floor(borrowed * 100 / ltv)`, narrowed to 64 bits.
pub open spec fn min_collateral_spec(borrowed: u64, ltv: u8) -> u64
    recommends
        ltv > 0,
{
    wrap_u64(borrowed * 100 / (ltv as int))
}

/// The collateral-to-debt percentage a liquidation attempt judges:
/// `floor(collateral * 100 / borrowed)`, narrowed to 8 bits. The
/// narrowing wraps whenever collateral exceeds 2.55 times the debt, so a
/// comfortably healthy position can come out looking liquidatable.
pub open spec fn collateral_ratio_spec(collateral: u64, borrowed: u64) -> u8
    recommends
        borrowed > 0,
{
    wrap_u8(collateral * 100 / (borrowed as int))
}

/// The collateral a liquidator seizes for repaying this much debt: the
/// repayment plus a five percent bonus, `floor(amount * 105 / 100)`,
/// narrowed to 64 bits, at one-to-one parity between the two assets.
pub open spec fn seize_amount_spec(amount: u64) -> u64 {
    wrap_u64(amount * 105 / 100)
}

/// Narrowing keeps a value that already fits in 64 bits.
pub proof fn lemma_wrap_u64_identity(x: int)
    requires
        0 <= x < 0x1_0000_0000_0000_0000,
    ensures
        wrap_u64(x) == x,
{
    lemma_small_mod(x as nat, 0x1_0000_0000_0000_0000nat);
}

/// Narrowing keeps a value that already fits in 8 bits.
pub proof fn lemma_wrap_u8_identity(x: int)
    requires
        0 <= x < 0x100,
    ensures
        wrap_u8(x) == x,
{
    lemma_small_mod(x as nat, 0x100nat);
}

/// With a loan-to-value ratio of at most 100 percent the borrow limit
/// never reaches the narrowing bound, so it is the exact mathematical
/// floor of `collateral * ltv / 100`.
pub proof fn lemma_max_borrow_exact(collateral: u64, ltv: u8)
    requires
        ltv <= 100,
    ensures
        max_borrow_spec(collateral, ltv) == collateral * ltv / 100,
        max_borrow_spec(collateral, ltv) <= collateral,
{
    lemma_mul_nonnegative(collateral as int, ltv as int);
    lemma_mul_inequality(ltv as int, 100, collateral as int);
    lemma_div_is_ordered(0, collateral * ltv, 100);
    lemma_div_is_ordered(collateral * ltv, 100 * collateral, 100);
    lemma_div_multiples_vanish(collateral as int, 100);
    lemma_wrap_u64_identity(collateral * ltv / 100);
}

/// As long as the true quotient fits in 64 bits, the required-collateral
/// floor is exact.
pub proof fn lemma_min_collateral_exact(borrowed: u64, ltv: u8)
    requires
        0 < ltv,
        borrowed * 100 / (ltv as int) < 0x1_0000_0000_0000_0000,
    ensures
        min_collateral_spec(borrowed, ltv) == borrowed * 100 / (ltv as int),
{
    lemma_mul_nonnegative(borrowed as int, 100);
    lemma_div_is_ordered(0, borrowed * 100, ltv as int);
    lemma_wrap_u64_identity(borrowed * 100 / (ltv as int));
}

/// As long as the true percentage is below 256, the collateral ratio a
/// liquidation judges is the exact mathematical floor.
pub proof fn lemma_collateral_ratio_exact(collateral: u64, borrowed: u64)
    requires
        0 < borrowed,
        collateral * 100 / (borrowed as int) < 0x100,
    ensures
        collateral_ratio_spec(collateral, borrowed) == collateral * 100 / (borrowed as int),
{
    lemma_mul_nonnegative(collateral as int, 100);
    lemma_div_is_ordered(0, collateral * 100, borrowed as int);
    lemma_wrap_u8_identity(collateral * 100 / (borrowed as int));
}

/// As long as the true seizure fits in 64 bits — the repayment stays
/// below roughly 95 percent of the largest balance — the seizure is the
/// exact mathematical floor of the repayment plus its bonus.
pub proof fn lemma_seize_exact(amount: u64)
    requires
        amount * 105 / 100 < 0x1_0000_0000_0000_0000,
    ensures
        seize_amount_spec(amount) == amount * 105 / 100,
{
    lemma_mul_nonnegative(amount as int, 105);
    lemma_div_is_ordered(0, amount * 105, 100);
    lemma_wrap_u64_identity(amount * 105 / 100);
}

/// `floor(value * numerator / denominator)` through a 128-bit
/// intermediate, narrowed back to 64 bits; `None` exactly when the
/// denominator is zero. The 128-bit product of two 64-bit factors cannot
/// overflow, so the only failure a checked computation of this shape can
/// meet is the division by zero.
pub fn mul_div_u64(value: u64, numerator: u64, denominator: u64) -> (r: Option<u64>)
    ensures
        r is Some <==> denominator != 0,
        denominator != 0 ==> r == Some(wrap_u64(value * numerator / (denominator as int))),
{
    if denominator == 0 {
        None
    } else {
        proof {
            lemma_mul_inequality(value as int, 0xffff_ffff_ffff_ffff, numerator as int);
            lemma_mul_inequality(numerator as int, 0xffff_ffff_ffff_ffff, 0xffff_ffff_ffff_ffff);
        }
        let wide: u128 = (value as u128) * (numerator as u128);
        let quotient: u128 = wide / (denominator as u128);
        Some((quotient % 0x1_0000_0000_0000_0000u128) as u64)
    }
}

/// `floor(collateral * 100 / borrowed)` through a 128-bit intermediate,
/// narrowed to an 8-bit percentage; `None` exactly when there is no debt
/// to divide by.
pub fn ratio_percent(collateral: u64, borrowed: u64) -> (r: Option<u8>)
    ensures
        r is Some <==> borrowed != 0,
        borrowed != 0 ==> r == Some(collateral_ratio_spec(collateral, borrowed)),
{
    if borrowed == 0 {
        None
    } else {
        let wide: u128 = (collateral as u128) * 100;
        let quotient: u128 = wide / (borrowed as u128);
        Some((quotient % 0x100u128) as u8)
    }
}

} // verus!
