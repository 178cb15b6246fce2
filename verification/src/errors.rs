//! The error taxonomy of the protocol.
//!
//! Every error is a synchronous per-call rejection: the operation that
//! returns it has made no observable change to the pool or the position.

use vstd::prelude::*;

verus! {

/// Reasons an operation can be rejected.
#[derive(Clone, Copy, Debug, PartialEq, Eq, Structural)]
pub enum ErrorCode {
    /// A checked addition, subtraction, multiplication or division
    /// over- or underflowed (including division by zero).
    NumericalOverflow,
    /// The requested borrow exceeds the loan-to-value limit.
    BorrowTooLarge,
    /// The position's collateral cannot cover the request.
    InsufficientCollateral,
    /// Declared by the protocol but raised by no operation.
    UnauthorizedAccess,
    /// The repayment exceeds the outstanding debt.
    RepayAmountTooLarge,
    /// The treasury account handed in does not match the pool's.
    InvalidTreasury,
    /// The position's collateral ratio is above the liquidation threshold.
    PositionNotLiquidatable,
    /// The liquidation repayment exceeds the outstanding debt.
    LiquidationAmountTooLarge,
}

} // verus!
