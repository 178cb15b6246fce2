//! Protocol-wide laws, stated and proved over the same spec functions the
//! operations' contracts use.

use crate::math::{
    collateral_ratio_spec, lemma_collateral_ratio_exact, lemma_max_borrow_exact,
    lemma_min_collateral_exact, lemma_seize_exact, max_borrow_spec, seize_amount_spec,
};
use crate::pool::LendingPool;
use crate::position::{deposit_step, withdraw_check, UserPosition};
use crate::risk::borrow_check;
use crate::liquidation::liquidate_check;
use crate::transfer::AccountId;
use vstd::prelude::*;

verus! {

/// The collateral balance left after attempting this whole sequence of
/// deposits in order, each applied as [`deposit_step`] applies it.
pub open spec fn apply_deposits(collateral: u64, amounts: Seq<u64>) -> u64
    decreases amounts.len(),
{
    if amounts.len() == 0 {
        collateral
    } else {
        apply_deposits(deposit_step(collateral, amounts[0]), amounts.subrange(1, amounts.len() as int))
    }
}

/// The sum of exactly those deposits in the sequence that the checked
/// addition accepts; a deposit that would wrap contributes nothing.
pub open spec fn accepted_sum(collateral: u64, amounts: Seq<u64>) -> int
    decreases amounts.len(),
{
    if amounts.len() == 0 {
        0int
    } else {
        let head = if collateral + amounts[0] <= u64::MAX {
            amounts[0] as int
        } else {
            0int
        };
        head + accepted_sum(
            deposit_step(collateral, amounts[0]),
            amounts.subrange(1, amounts.len() as int),
        )
    }
}

/// Law: across any sequence of deposits, the collateral balance equals
/// the starting balance plus the sum of the successful deposit amounts;
/// every rejected deposit leaves the balance unchanged.
pub proof fn lemma_deposit_accounting(collateral: u64, amounts: Seq<u64>)
    ensures
        apply_deposits(collateral, amounts) == collateral + accepted_sum(collateral, amounts),
    decreases amounts.len(),
{
    if amounts.len() > 0 {
        lemma_deposit_accounting(
            deposit_step(collateral, amounts[0]),
            amounts.subrange(1, amounts.len() as int),
        );
    }
}

/// Law: a borrow that passes the risk checks on a position with no debt
/// outstanding leaves the new debt within `floor(collateral * ltv / 100)`.
///
/// The limit check judges the requested amount alone, never the accumulated
/// debt, so a later borrow can push the total past the limit — with
/// collateral 1000 two borrows of 750 each pass, leaving a debt of 1500
/// against a limit of 750. The law therefore speaks of the first borrow.
pub proof fn lemma_first_borrow_within_limit(
    pool: LendingPool,
    position: UserPosition,
    treasury: AccountId,
    amount: u64,
)
    requires
        pool.wf(),
        position.borrowed_amount == 0,
        borrow_check(pool, position, treasury, amount) is None,
    ensures
        position.borrowed_amount + amount <= max_borrow_spec(
            position.collateral_amount,
            pool.ltv_ratio,
        ),
        position.borrowed_amount + amount <= position.collateral_amount * pool.ltv_ratio / 100,
{
    lemma_max_borrow_exact(position.collateral_amount, pool.ltv_ratio);
}

/// Law: wherever the true collateral floor fits in 64 bits, a withdrawal
/// is permitted exactly when the remaining balance exists and sits at or
/// above the exact floor `borrowed * 100 / ltv` — the boundary holds on
/// both sides of the floor division.
pub proof fn lemma_withdraw_exact_floor(pool: LendingPool, position: UserPosition, amount: u64)
    requires
        pool.wf(),
        position.borrowed_amount * 100 / (pool.ltv_ratio as int) < 0x1_0000_0000_0000_0000,
    ensures
        withdraw_check(pool, position, amount) is None <==> (amount
            <= position.collateral_amount && position.collateral_amount - amount
            >= position.borrowed_amount * 100 / (pool.ltv_ratio as int)),
{
    lemma_min_collateral_exact(position.borrowed_amount, pool.ltv_ratio);
}

/// Law: wherever the two narrowed percentages fit their widths — the true
/// collateral ratio below 256 percent and the true seizure within a
/// 64-bit balance — liquidation is permitted exactly when
/// `floor(collateral * 100 / borrowed)` sits at or below the threshold,
/// the repayment within the debt, and the exact seizure
/// `floor(amount * 105 / 100)` within the collateral.
pub proof fn lemma_liquidation_exact_conditions(
    pool: LendingPool,
    position: UserPosition,
    treasury: AccountId,
    liquidation_amount: u64,
)
    requires
        treasury == pool.treasury,
        0 < position.borrowed_amount,
        position.collateral_amount * 100 / (position.borrowed_amount as int) < 0x100,
        liquidation_amount * 105 / 100 < 0x1_0000_0000_0000_0000,
    ensures
        collateral_ratio_spec(position.collateral_amount, position.borrowed_amount)
            == position.collateral_amount * 100 / (position.borrowed_amount as int),
        seize_amount_spec(liquidation_amount) == liquidation_amount * 105 / 100,
        liquidate_check(pool, position, treasury, liquidation_amount) is None <==> (
        position.collateral_amount * 100 / (position.borrowed_amount as int)
            <= pool.liquidation_threshold && liquidation_amount <= position.borrowed_amount
            && liquidation_amount * 105 / 100 <= position.collateral_amount),
{
    lemma_collateral_ratio_exact(position.collateral_amount, position.borrowed_amount);
    lemma_seize_exact(liquidation_amount);
}

} // verus!
