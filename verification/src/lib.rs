//! Core logic of a single-market, over-collateralized lending protocol.
//!
//! Users deposit one asset (here called ore) as collateral and borrow a
//! second asset (usdc) against it, up to a fixed loan-to-value limit.
//! Positions whose collateral-to-debt ratio falls to or below the
//! liquidation threshold may be liquidated by third parties for a fixed
//! bonus.
//!
//! The library holds the entire decision and state-transition logic:
//! risk checks, ratio arithmetic, and the resulting mutations of the
//! pool and position records. Actual movement of asset balances is the
//! job of an external transfer gateway; each operation here returns the
//! [`transfer::TransferRequest`] values that the host must carry out.

pub mod errors;
pub mod laws;
pub mod liquidation;
pub mod math;
pub mod pool;
pub mod position;
pub mod risk;
pub mod transfer;
