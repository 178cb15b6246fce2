//! The liquidation engine: detecting under-collateralization and
//! executing bonus-bearing liquidation.
//!
//! A position is liquidatable whenever its collateral-to-debt percentage,
//! re-derived on every attempt, sits at or below the pool's threshold.
//! The liquidator repays part of the debt and seizes the repaid amount
//! plus a five percent bonus in collateral, at one-to-one parity.
//!
//! The percentage is narrowed to an 8-bit value, so it wraps once
//! collateral exceeds 2.55 times the debt; a very healthy position can
//! therefore be judged liquidatable. That hazard is part of the
//! protocol's behaviour and is stated openly in
//! [`crate::math::collateral_ratio_spec`].

use crate::errors::ErrorCode;
use crate::math::{collateral_ratio_spec, mul_div_u64, ratio_percent, seize_amount_spec};
use crate::pool::LendingPool;
use crate::position::UserPosition;
use crate::transfer::{AccountId, Authority, TransferRequest};
use vstd::prelude::*;

verus! {

/// The conditions a liquidation must pass in order, and the first error when
/// it does not: the treasury handed in must be the pool's; the position
/// must carry debt (the ratio of a debt-free position has no value, and
/// the checked division rejects it as an overflow); the narrowed
/// collateral ratio must sit at or below the threshold; the repayment
/// must not exceed the debt; and the seized collateral, bonus included,
/// must exist.
pub open spec fn liquidate_check(
    pool: LendingPool,
    position: UserPosition,
    treasury: AccountId,
    liquidation_amount: u64,
) -> Option<ErrorCode> {
    if treasury != pool.treasury {
        Some(ErrorCode::InvalidTreasury)
    } else if position.borrowed_amount == 0 {
        Some(ErrorCode::NumericalOverflow)
    } else if collateral_ratio_spec(position.collateral_amount, position.borrowed_amount)
        > pool.liquidation_threshold {
        Some(ErrorCode::PositionNotLiquidatable)
    } else if liquidation_amount > position.borrowed_amount {
        Some(ErrorCode::LiquidationAmountTooLarge)
    } else if seize_amount_spec(liquidation_amount) > position.collateral_amount {
        Some(ErrorCode::InsufficientCollateral)
    } else {
        None
    }
}

/// Repays `liquidation_amount` of the position's debt on the owner's
/// behalf and seizes `floor(liquidation_amount * 105 / 100)` collateral
/// for the liquidator.
///
/// Rejected, changing nothing, when any condition of [`liquidate_check`]
/// fails. On success the first returned request moves the repayment from
/// the liquidator's debt-asset account to the treasury under the
/// liquidator's authority; the second moves the seized collateral from
/// the vault to the liquidator's collateral account under the pool's own
/// signing authority; the position's debt shrinks by the repayment and
/// its collateral by the seizure.
pub fn liquidate_position(
    pool: &LendingPool,
    position: &mut UserPosition,
    treasury: AccountId,
    liquidator: AccountId,
    liquidator_usdc_account: AccountId,
    liquidator_ore_account: AccountId,
    ore_vault: AccountId,
    liquidation_amount: u64,
) -> (r: Result<(TransferRequest, TransferRequest), ErrorCode>)
    ensures
        liquidate_check(*pool, *old(position), treasury, liquidation_amount) matches Some(e) ==> r
            == Err::<(TransferRequest, TransferRequest), ErrorCode>(e) && *final(position) == *old(
            position,
        ),
        liquidate_check(*pool, *old(position), treasury, liquidation_amount) is None ==> r == Ok::<
            (TransferRequest, TransferRequest),
            ErrorCode,
        >(
            (
                TransferRequest {
                    asset: pool.usdc_mint,
                    from: liquidator_usdc_account,
                    to: treasury,
                    amount: liquidation_amount,
                    authority: Authority::User(liquidator),
                },
                TransferRequest {
                    asset: pool.ore_mint,
                    from: ore_vault,
                    to: liquidator_ore_account,
                    amount: seize_amount_spec(liquidation_amount),
                    authority: Authority::Pool,
                },
            ),
        ) && *final(position) == (UserPosition {
            owner: old(position).owner,
            collateral_amount: (old(position).collateral_amount - seize_amount_spec(
                liquidation_amount,
            )) as u64,
            borrowed_amount: (old(position).borrowed_amount - liquidation_amount) as u64,
        }),
{
    if treasury != pool.treasury {
        return Err(ErrorCode::InvalidTreasury);
    }
    let collateral_ratio = match ratio_percent(
        position.collateral_amount,
        position.borrowed_amount,
    ) {
        None => {
            return Err(ErrorCode::NumericalOverflow);
        },
        Some(collateral_ratio) => collateral_ratio,
    };
    if collateral_ratio > pool.liquidation_threshold {
        return Err(ErrorCode::PositionNotLiquidatable);
    }
    if liquidation_amount > position.borrowed_amount {
        return Err(ErrorCode::LiquidationAmountTooLarge);
    }
    let ore_to_receive = match mul_div_u64(liquidation_amount, 105, 100) {
        None => {
            return Err(ErrorCode::NumericalOverflow);
        },
        Some(ore_to_receive) => ore_to_receive,
    };
    if ore_to_receive > position.collateral_amount {
        return Err(ErrorCode::InsufficientCollateral);
    }
    position.borrowed_amount = position.borrowed_amount - liquidation_amount;
    position.collateral_amount = position.collateral_amount - ore_to_receive;
    Ok(
        (
            TransferRequest {
                asset: pool.usdc_mint,
                from: liquidator_usdc_account,
                to: treasury,
                amount: liquidation_amount,
                authority: Authority::User(liquidator),
            },
            TransferRequest {
                asset: pool.ore_mint,
                from: ore_vault,
                to: liquidator_ore_account,
                amount: ore_to_receive,
                authority: Authority::Pool,
            },
        ),
    )
}

} // verus!
