//! The pool manager: the single global market configuration.
//!
//! One pool exists per deployment. It names the two assets of the market,
//! points at the treasury that funds borrows, and fixes the two risk
//! percentages at creation. After creation only the treasury pointer ever
//! changes.

use crate::errors::ErrorCode;
use crate::transfer::AccountId;
use vstd::prelude::*;

verus! {

/// The singleton market configuration record.
#[derive(Clone, Copy, Debug, PartialEq, Eq, Structural)]
pub struct LendingPool {
    /// The collateral asset of the market.
    pub ore_mint: AccountId,
    /// The debt asset of the market.
    pub usdc_mint: AccountId,
    /// The account holding the debt-asset reserves.
    pub treasury: AccountId,
    /// The address-derivation discriminant under which the pool record
    /// and its signing authority were derived.
    pub bump: u8,
    /// The loan-to-value limit, in percent; fixed at creation.
    pub ltv_ratio: u8,
    /// The collateral-to-debt percentage at or below which a position may
    /// be liquidated; fixed at creation.
    pub liquidation_threshold: u8,
}

impl LendingPool {
    /// The pool invariant, established at creation: borrowing up to the
    /// loan-to-value limit leaves headroom before the liquidation line,
    /// and both percentages are genuine percentages.
    pub open spec fn wf(&self) -> bool {
        0 < self.ltv_ratio < self.liquidation_threshold <= 100
    }
}

/// Creates the singleton pool record with a 75 percent loan-to-value
/// limit and an 80 percent liquidation threshold. The surrounding storage
/// layer rejects a second creation at the same derived address; within
/// the core, creation always succeeds.
pub fn initialize_lending_pool(
    ore_mint: AccountId,
    usdc_mint: AccountId,
    treasury: AccountId,
    bump: u8,
) -> (pool: LendingPool)
    ensures
        pool == (LendingPool {
            ore_mint,
            usdc_mint,
            treasury,
            bump,
            ltv_ratio: 75,
            liquidation_threshold: 80,
        }),
        pool.wf(),
{
    LendingPool { ore_mint, usdc_mint, treasury, bump, ltv_ratio: 75, liquidation_threshold: 80 }
}

/// Repoints the pool's treasury. The only condition is that the new treasury
/// account holds the pool's debt asset; no administrator key is checked,
/// so any authenticated caller who owns such an account may repoint it.
/// On rejection the pool is unchanged.
pub fn update_treasury(
    pool: &mut LendingPool,
    new_treasury: AccountId,
    new_treasury_mint: AccountId,
) -> (r: Result<(), ErrorCode>)
    ensures
        new_treasury_mint == old(pool).usdc_mint ==> r is Ok && *final(pool) == (LendingPool {
            treasury: new_treasury,
            ..*old(pool)
        }),
        new_treasury_mint != old(pool).usdc_mint ==> r == Err::<(), ErrorCode>(
            ErrorCode::InvalidTreasury,
        ) && *final(pool) == *old(pool),
        final(pool).wf() == old(pool).wf(),
{
    if new_treasury_mint != pool.usdc_mint {
        return Err(ErrorCode::InvalidTreasury);
    }
    pool.treasury = new_treasury;
    Ok(())
}

} // verus!
