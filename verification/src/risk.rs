//! The risk engine: borrow and repay eligibility against the pool's
//! loan-to-value ratio.
//!
//! A borrow may take out at most `floor(collateral * ltv / 100)` debt
//! units in one request; a repayment may return at most the outstanding
//! debt. Both move debt-asset units between the user and the pool's
//! treasury, so both insist on being handed the treasury the pool points
//! at.

use crate::errors::ErrorCode;
use crate::math::{max_borrow_spec, mul_div_u64};
use crate::pool::LendingPool;
use crate::position::UserPosition;
use crate::transfer::{AccountId, Authority, TransferRequest};
use vstd::prelude::*;

verus! {

/// The conditions a borrow must pass in order, and the first error when it
/// does not: the request alone must sit within the loan-to-value limit
/// (debt already outstanding is not counted against it), the treasury
/// handed in must be the pool's, and the new debt total must fit.
pub open spec fn borrow_check(
    pool: LendingPool,
    position: UserPosition,
    treasury: AccountId,
    amount: u64,
) -> Option<ErrorCode>
    recommends
        pool.wf(),
{
    if amount > max_borrow_spec(position.collateral_amount, pool.ltv_ratio) {
        Some(ErrorCode::BorrowTooLarge)
    } else if treasury != pool.treasury {
        Some(ErrorCode::InvalidTreasury)
    } else if position.borrowed_amount + amount > u64::MAX {
        Some(ErrorCode::NumericalOverflow)
    } else {
        None
    }
}

/// The conditions a repayment must pass in order, and the first error when it
/// does not: no more than the outstanding debt may be repaid — whatever
/// treasury was handed in — and the treasury must be the pool's.
pub open spec fn repay_check(
    pool: LendingPool,
    position: UserPosition,
    treasury: AccountId,
    amount: u64,
) -> Option<ErrorCode> {
    if amount > position.borrowed_amount {
        Some(ErrorCode::RepayAmountTooLarge)
    } else if treasury != pool.treasury {
        Some(ErrorCode::InvalidTreasury)
    } else {
        None
    }
}

/// Borrows `amount` debt-asset units against the caller's collateral.
///
/// Rejected, changing nothing, when the request exceeds
/// `floor(collateral * ltv / 100)`, when the treasury handed in is not
/// the pool's, or when the debt total would wrap. On success the returned
/// request moves the amount from the treasury to the user's debt-asset
/// account under the user's authority, and the position's debt has grown
/// by the amount.
pub fn borrow_usdc(
    pool: &LendingPool,
    position: &mut UserPosition,
    treasury: AccountId,
    user: AccountId,
    user_usdc_account: AccountId,
    amount: u64,
) -> (r: Result<TransferRequest, ErrorCode>)
    requires
        pool.wf(),
        old(position).owner == user,
    ensures
        borrow_check(*pool, *old(position), treasury, amount) matches Some(e) ==> r == Err::<
            TransferRequest,
            ErrorCode,
        >(e) && *final(position) == *old(position),
        borrow_check(*pool, *old(position), treasury, amount) is None ==> r == Ok::<
            TransferRequest,
            ErrorCode,
        >(
            TransferRequest {
                asset: pool.usdc_mint,
                from: treasury,
                to: user_usdc_account,
                amount,
                authority: Authority::User(user),
            },
        ) && *final(position) == (UserPosition {
            owner: old(position).owner,
            collateral_amount: old(position).collateral_amount,
            borrowed_amount: (old(position).borrowed_amount + amount) as u64,
        }),
{
    let max_borrow = match mul_div_u64(position.collateral_amount, pool.ltv_ratio as u64, 100) {
        None => {
            return Err(ErrorCode::NumericalOverflow);
        },
        Some(max_borrow) => max_borrow,
    };
    if amount > max_borrow {
        return Err(ErrorCode::BorrowTooLarge);
    }
    if treasury != pool.treasury {
        return Err(ErrorCode::InvalidTreasury);
    }
    match position.borrowed_amount.checked_add(amount) {
        None => Err(ErrorCode::NumericalOverflow),
        Some(new_borrowed) => {
            position.borrowed_amount = new_borrowed;
            Ok(
                TransferRequest {
                    asset: pool.usdc_mint,
                    from: treasury,
                    to: user_usdc_account,
                    amount,
                    authority: Authority::User(user),
                },
            )
        },
    }
}

/// Repays `amount` debt-asset units of the caller's outstanding debt.
///
/// Rejected, changing nothing, when the repayment exceeds the debt or
/// when the treasury handed in is not the pool's. On success the returned
/// request moves the amount from the user's debt-asset account to the
/// treasury under the user's authority, and the position's debt has
/// shrunk by the amount.
pub fn repay_usdc(
    pool: &LendingPool,
    position: &mut UserPosition,
    treasury: AccountId,
    user: AccountId,
    user_usdc_account: AccountId,
    amount: u64,
) -> (r: Result<TransferRequest, ErrorCode>)
    requires
        old(position).owner == user,
    ensures
        repay_check(*pool, *old(position), treasury, amount) matches Some(e) ==> r == Err::<
            TransferRequest,
            ErrorCode,
        >(e) && *final(position) == *old(position),
        repay_check(*pool, *old(position), treasury, amount) is None ==> r == Ok::<
            TransferRequest,
            ErrorCode,
        >(
            TransferRequest {
                asset: pool.usdc_mint,
                from: user_usdc_account,
                to: treasury,
                amount,
                authority: Authority::User(user),
            },
        ) && *final(position) == (UserPosition {
            owner: old(position).owner,
            collateral_amount: old(position).collateral_amount,
            borrowed_amount: (old(position).borrowed_amount - amount) as u64,
        }),
{
    if amount > position.borrowed_amount {
        return Err(ErrorCode::RepayAmountTooLarge);
    }
    if treasury != pool.treasury {
        return Err(ErrorCode::InvalidTreasury);
    }
    position.borrowed_amount = position.borrowed_amount - amount;
    Ok(
        TransferRequest {
            asset: pool.usdc_mint,
            from: user_usdc_account,
            to: treasury,
            amount,
            authority: Authority::User(user),
        },
    )
}

} // verus!
