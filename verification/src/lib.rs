//! A minimal lending-position fixture: one record type and two operations.
//!
//! A position is created with hard-coded collateral and borrowed amounts,
//! deliberately under-collateralized, and can be liquidated exactly when the
//! borrowed amount exceeds the collateral. Liquidation zeroes both amounts;
//! on any other position it fails and leaves the record unchanged.
//!
//! The host runtime's account plumbing (allocation, signers, persistence)
//! lives outside this crate; the logic here works on plain values.

use vstd::prelude::*;

verus! {

/// Collateral deposited at creation, in lamports (0.1 SOL).
pub const INITIAL_COLLATERAL: u64 = 100_000_000;

/// Amount borrowed at creation, in lamports (0.2 SOL), deliberately
/// exceeding the collateral so that the position is liquidatable at once.
pub const INITIAL_BORROWED: u64 = 200_000_000;

/// The record tracking a user's deposited collateral and borrowed value.
/// The owner is the 32-byte public key of the account that created it.
#[derive(Clone, Copy, Debug)]
pub struct Position {
    pub owner: [u8; 32],
    pub collateral_amount: u64,
    pub borrowed_amount: u64,
}

/// The one error this fixture can raise itself; every other failure is the
/// host runtime's.
#[derive(Clone, Copy, Debug)]
pub enum LiquidationError {
    /// The position's borrowed amount does not exceed its collateral.
    NotLiquidatable,
}

impl Position {
    /// Liquidation is permitted exactly when the borrowed amount exceeds
    /// the collateral.
    pub open spec fn is_liquidatable(self) -> bool {
        self.borrowed_amount > self.collateral_amount
    }
}

/// Builds a fresh position for `owner` with the fixed amounts. Because the
/// borrowed amount exceeds the collateral, the result is liquidatable.
pub fn create_risky_position(owner: [u8; 32]) -> (p: Position)
    ensures
        p.owner == owner,
        p.collateral_amount == INITIAL_COLLATERAL,
        p.borrowed_amount == INITIAL_BORROWED,
        p.is_liquidatable(),
{
    Position {
        owner,
        collateral_amount: INITIAL_COLLATERAL,
        borrowed_amount: INITIAL_BORROWED,
    }
}

/// Liquidates `position` if and only if its borrowed amount exceeds its
/// collateral: both amounts are zeroed and the owner is kept. Otherwise it
/// fails with `NotLiquidatable` and the record is unchanged.
pub fn liquidate(position: &mut Position) -> (r: Result<(), LiquidationError>)
    ensures
        old(position).is_liquidatable() ==> {
            &&& r is Ok
            &&& final(position).collateral_amount == 0
            &&& final(position).borrowed_amount == 0
            &&& final(position).owner == old(position).owner
        },
        !old(position).is_liquidatable() ==> {
            &&& r matches Err(LiquidationError::NotLiquidatable)
            &&& *final(position) == *old(position)
        },
{
    if position.borrowed_amount > position.collateral_amount {
        position.collateral_amount = 0;
        position.borrowed_amount = 0;
        Ok(())
    } else {
        Err(LiquidationError::NotLiquidatable)
    }
}

} // verus!
