//! The position manager: per-user collateral and debt bookkeeping.
//!
//! A position is created lazily on first deposit and persists forever,
//! including at zero balances. Both amounts move only through checked
//! arithmetic: an operation that would wrap is rejected whole, with the
//! position left untouched.

use crate::errors::ErrorCode;
use crate::math::{min_collateral_spec, mul_div_u64};
use crate::pool::LendingPool;
use crate::transfer::{AccountId, Authority, TransferRequest};
use vstd::prelude::*;

verus! {

/// One user's bookkeeping record within the single market.
#[derive(Clone, Copy, Debug, PartialEq, Eq, Structural)]
pub struct UserPosition {
    /// The identity that owns the position. Every mutation except
    /// liquidation must be requested by this owner.
    pub owner: AccountId,
    /// Collateral-asset units deposited and not yet withdrawn or seized.
    pub collateral_amount: u64,
    /// Debt-asset units borrowed and not yet repaid or liquidated away.
    pub borrowed_amount: u64,
}

impl UserPosition {
    /// A freshly created, empty position, as the storage layer zeroes it
    /// before the first deposit claims it.
    pub fn new() -> (p: UserPosition)
        ensures
            p == (UserPosition { owner: 0, collateral_amount: 0, borrowed_amount: 0 }),
    {
        UserPosition { owner: 0, collateral_amount: 0, borrowed_amount: 0 }
    }
}

/// What one deposit of `amount` leaves behind: the checked sum, or the
/// old balance untouched when the sum would not fit.
pub open spec fn deposit_step(collateral: u64, amount: u64) -> u64 {
    if collateral + amount <= u64::MAX {
        (collateral + amount) as u64
    } else {
        collateral
    }
}

/// The condition a deposit must pass, and the error when it does not.
pub open spec fn deposit_check(position: UserPosition, amount: u64) -> Option<ErrorCode> {
    if position.collateral_amount + amount > u64::MAX {
        Some(ErrorCode::NumericalOverflow)
    } else {
        None
    }
}

/// The conditions a withdrawal must pass in order, and the first error when it
/// does not: the balance must cover the withdrawal, and what remains must
/// still back the outstanding debt at the pool's loan-to-value ratio.
pub open spec fn withdraw_check(
    pool: LendingPool,
    position: UserPosition,
    amount: u64,
) -> Option<ErrorCode>
    recommends
        pool.wf(),
{
    if amount > position.collateral_amount {
        Some(ErrorCode::InsufficientCollateral)
    } else if position.collateral_amount - amount < min_collateral_spec(
        position.borrowed_amount,
        pool.ltv_ratio,
    ) {
        Some(ErrorCode::InsufficientCollateral)
    } else {
        None
    }
}

/// Deposits `amount` collateral-asset units into the caller's position.
///
/// A zero deposit is a no-op that still succeeds. The deposit is rejected
/// exactly when the checked addition would wrap, and then changes
/// nothing. On success the returned request moves the amount from the
/// user's collateral account into the vault under the user's own
/// authority, the position belongs to the depositor, and its collateral
/// has grown by the amount.
pub fn deposit_collateral(
    pool: &LendingPool,
    position: &mut UserPosition,
    user: AccountId,
    user_ore_account: AccountId,
    ore_vault: AccountId,
    amount: u64,
) -> (r: Result<TransferRequest, ErrorCode>)
    ensures
        deposit_check(*old(position), amount) matches Some(e) ==> r == Err::<
            TransferRequest,
            ErrorCode,
        >(e) && *final(position) == *old(position),
        deposit_check(*old(position), amount) is None ==> r == Ok::<TransferRequest, ErrorCode>(
            TransferRequest {
                asset: pool.ore_mint,
                from: user_ore_account,
                to: ore_vault,
                amount,
                authority: Authority::User(user),
            },
        ) && *final(position) == (UserPosition {
            owner: user,
            collateral_amount: (old(position).collateral_amount + amount) as u64,
            borrowed_amount: old(position).borrowed_amount,
        }),
        final(position).collateral_amount == deposit_step(old(position).collateral_amount, amount),
{
    match position.collateral_amount.checked_add(amount) {
        None => Err(ErrorCode::NumericalOverflow),
        Some(new_collateral) => {
            position.owner = user;
            position.collateral_amount = new_collateral;
            Ok(
                TransferRequest {
                    asset: pool.ore_mint,
                    from: user_ore_account,
                    to: ore_vault,
                    amount,
                    authority: Authority::User(user),
                },
            )
        },
    }
}

/// Withdraws `amount` collateral-asset units from the caller's position.
///
/// The withdrawal is rejected, changing nothing, unless the remaining
/// balance both exists and still backs the outstanding debt: at least
/// `floor(borrowed * 100 / ltv)` collateral must stay behind. On success
/// the returned request moves the amount from the vault to the user's
/// collateral account under the pool's own signing authority, and the
/// position's collateral shrinks by the amount.
pub fn withdraw_collateral(
    pool: &LendingPool,
    position: &mut UserPosition,
    user: AccountId,
    user_ore_account: AccountId,
    ore_vault: AccountId,
    amount: u64,
) -> (r: Result<TransferRequest, ErrorCode>)
    requires
        pool.wf(),
        old(position).owner == user,
    ensures
        withdraw_check(*pool, *old(position), amount) matches Some(e) ==> r == Err::<
            TransferRequest,
            ErrorCode,
        >(e) && *final(position) == *old(position),
        withdraw_check(*pool, *old(position), amount) is None ==> r == Ok::<
            TransferRequest,
            ErrorCode,
        >(
            TransferRequest {
                asset: pool.ore_mint,
                from: ore_vault,
                to: user_ore_account,
                amount,
                authority: Authority::Pool,
            },
        ) && *final(position) == (UserPosition {
            owner: old(position).owner,
            collateral_amount: (old(position).collateral_amount - amount) as u64,
            borrowed_amount: old(position).borrowed_amount,
        }),
{
    let remaining = match position.collateral_amount.checked_sub(amount) {
        None => {
            return Err(ErrorCode::InsufficientCollateral);
        },
        Some(remaining) => remaining,
    };
    let min_required = match mul_div_u64(position.borrowed_amount, 100, pool.ltv_ratio as u64) {
        None => {
            return Err(ErrorCode::NumericalOverflow);
        },
        Some(min_required) => min_required,
    };
    if remaining < min_required {
        return Err(ErrorCode::InsufficientCollateral);
    }
    position.collateral_amount = remaining;
    Ok(
        TransferRequest {
            asset: pool.ore_mint,
            from: ore_vault,
            to: user_ore_account,
            amount,
            authority: Authority::Pool,
        },
    )
}

} // verus!
