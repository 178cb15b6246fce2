//! Requests handed to the external transfer gateway.
//!
//! The core never moves asset balances itself. A successful operation
//! returns one or two [`TransferRequest`] values that describe exactly
//! which balances the host ledger must move, and under whose authority,
//! before the new pool and position state may be committed.

use vstd::prelude::*;

verus! {

/// An opaque account or asset identifier.
///
/// The host ledger addresses accounts by deterministically derived keys;
/// the core only ever compares identifiers for equality, so a plain
/// integer stands for them here.
pub type AccountId = u64;

/// Who signs a transfer.
#[derive(Clone, Copy, Debug, PartialEq, Eq, Structural)]
pub enum Authority {
    /// A specific user's verified identity.
    User(AccountId),
    /// The pool's own derived signing authority, used only to move
    /// collateral out of the vault.
    Pool,
}

/// One asset movement for the transfer gateway to perform.
#[derive(Clone, Copy, Debug, PartialEq, Eq, Structural)]
pub struct TransferRequest {
    /// The asset being moved.
    pub asset: AccountId,
    /// The account debited.
    pub from: AccountId,
    /// The account credited.
    pub to: AccountId,
    /// How many units move.
    pub amount: u64,
    /// Who authorizes the movement.
    pub authority: Authority,
}

} // verus!
