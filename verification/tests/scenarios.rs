//! End-to-end scenarios at the protocol's documented boundaries,
//! including the two places where the fixed-width narrowing wraps.

use truestable::errors::ErrorCode;
use truestable::pool::initialize_lending_pool;
use truestable::position::{withdraw_collateral, UserPosition};
use truestable::risk::{borrow_usdc, repay_usdc};
use truestable::liquidation::liquidate_position;
use truestable::transfer::{Authority, TransferRequest};

const ORE: u64 = 11;
const USDC: u64 = 22;
const TREASURY: u64 = 33;
const VAULT: u64 = 44;
const USER: u64 = 7;
const USER_ORE: u64 = 71;
const USER_USDC: u64 = 72;
const LIQUIDATOR: u64 = 9;
const LIQUIDATOR_USDC: u64 = 91;
const LIQUIDATOR_ORE: u64 = 92;

#[test]
fn borrow_is_capped_exactly_at_the_ltv_floor() {
    let pool = initialize_lending_pool(ORE, USDC, TREASURY, 254);
    let mut position = UserPosition { owner: USER, collateral_amount: 1000, borrowed_amount: 0 };
    assert!(borrow_usdc(&pool, &mut position, TREASURY, USER, USER_USDC, 750).is_ok());
    assert_eq!(position.borrowed_amount, 750);

    let mut fresh = UserPosition { owner: USER, collateral_amount: 1000, borrowed_amount: 0 };
    let r = borrow_usdc(&pool, &mut fresh, TREASURY, USER, USER_USDC, 751);
    assert_eq!(r, Err(ErrorCode::BorrowTooLarge));
    assert_eq!(fresh.borrowed_amount, 0);
}

#[test]
fn withdraw_is_checked_on_both_sides_of_the_collateral_floor() {
    let pool = initialize_lending_pool(ORE, USDC, TREASURY, 254);
    let mut position = UserPosition { owner: USER, collateral_amount: 1000, borrowed_amount: 600 };
    // 600 of debt requires floor(600 * 100 / 75) = 800 collateral to stay.
    let r = withdraw_collateral(&pool, &mut position, USER, USER_ORE, VAULT, 300);
    assert_eq!(r, Err(ErrorCode::InsufficientCollateral));
    assert_eq!(position.collateral_amount, 1000);

    assert!(withdraw_collateral(&pool, &mut position, USER, USER_ORE, VAULT, 200).is_ok());
    assert_eq!(position.collateral_amount, 800);
}

#[test]
fn liquidation_repays_debt_and_seizes_collateral_with_bonus() {
    let pool = initialize_lending_pool(ORE, USDC, TREASURY, 254);
    let mut position = UserPosition { owner: USER, collateral_amount: 70, borrowed_amount: 100 };
    // Ratio floor(70 * 100 / 100) = 70 <= 80: liquidatable.
    let r = liquidate_position(
        &pool,
        &mut position,
        TREASURY,
        LIQUIDATOR,
        LIQUIDATOR_USDC,
        LIQUIDATOR_ORE,
        VAULT,
        50,
    );
    assert_eq!(
        r,
        Ok((
            TransferRequest {
                asset: USDC,
                from: LIQUIDATOR_USDC,
                to: TREASURY,
                amount: 50,
                authority: Authority::User(LIQUIDATOR),
            },
            TransferRequest {
                asset: ORE,
                from: VAULT,
                to: LIQUIDATOR_ORE,
                amount: 52,
                authority: Authority::Pool,
            },
        ))
    );
    assert_eq!(position.borrowed_amount, 50);
    assert_eq!(position.collateral_amount, 18);
}

#[test]
fn a_position_above_the_threshold_is_not_liquidatable() {
    let pool = initialize_lending_pool(ORE, USDC, TREASURY, 254);
    let mut position = UserPosition { owner: USER, collateral_amount: 100, borrowed_amount: 100 };
    let before = position;
    // Ratio 100 > 80.
    for amount in [1u64, 50, 100] {
        let r = liquidate_position(
            &pool,
            &mut position,
            TREASURY,
            LIQUIDATOR,
            LIQUIDATOR_USDC,
            LIQUIDATOR_ORE,
            VAULT,
            amount,
        );
        assert_eq!(r, Err(ErrorCode::PositionNotLiquidatable));
        assert_eq!(position, before);
    }
}

#[test]
fn over_repayment_is_rejected_whatever_the_treasury() {
    let pool = initialize_lending_pool(ORE, USDC, TREASURY, 254);
    let mut position = UserPosition { owner: USER, collateral_amount: 1000, borrowed_amount: 600 };
    let before = position;
    // The amount check comes before the treasury check, so even a foreign
    // treasury sees the repayment error.
    for treasury in [TREASURY, 999] {
        let r = repay_usdc(&pool, &mut position, treasury, USER, USER_USDC, 601);
        assert_eq!(r, Err(ErrorCode::RepayAmountTooLarge));
        assert_eq!(position, before);
    }
}

#[test]
fn ratio_narrowing_wraps_and_misjudges_heavy_collateral() {
    let pool = initialize_lending_pool(ORE, USDC, TREASURY, 254);
    // True ratio 300: comfortably healthy. The 8-bit narrowing keeps
    // 300 - 256 = 44 <= 80, so the position is judged liquidatable.
    let mut position = UserPosition { owner: USER, collateral_amount: 300, borrowed_amount: 100 };
    let r = liquidate_position(
        &pool,
        &mut position,
        TREASURY,
        LIQUIDATOR,
        LIQUIDATOR_USDC,
        LIQUIDATOR_ORE,
        VAULT,
        50,
    );
    assert!(r.is_ok());
    assert_eq!(position.borrowed_amount, 50);
    assert_eq!(position.collateral_amount, 248);
}

#[test]
fn collateral_floor_narrowing_wraps_for_enormous_debt() {
    let pool = initialize_lending_pool(ORE, USDC, TREASURY, 254);
    // floor(14e18 * 100 / 75) = 18666666666666666666 does not fit in 64
    // bits; the narrowing keeps 219922592957115050, so a withdrawal that
    // the true floor forbids goes through.
    let huge: u64 = 14_000_000_000_000_000_000;
    let mut position = UserPosition { owner: USER, collateral_amount: huge, borrowed_amount: huge };
    let r = withdraw_collateral(&pool, &mut position, USER, USER_ORE, VAULT, 1000);
    assert!(r.is_ok());
    assert_eq!(position.collateral_amount, huge - 1000);
}

#[test]
fn a_rejected_operation_changes_nothing() {
    let pool = initialize_lending_pool(ORE, USDC, TREASURY, 254);
    let mut position = UserPosition { owner: USER, collateral_amount: 100, borrowed_amount: 75 };
    let before = position;
    assert!(borrow_usdc(&pool, &mut position, TREASURY, USER, USER_USDC, 76).is_err());
    assert!(repay_usdc(&pool, &mut position, TREASURY, USER, USER_USDC, 76).is_err());
    assert!(withdraw_collateral(&pool, &mut position, USER, USER_ORE, VAULT, 1).is_err());
    assert!(
        liquidate_position(
            &pool,
            &mut position,
            TREASURY,
            LIQUIDATOR,
            LIQUIDATOR_USDC,
            LIQUIDATOR_ORE,
            VAULT,
            76,
        )
        .is_err()
    );
    assert_eq!(position, before);
}
