//! Events of the pool program.

use vstd::prelude::*;

verus! {

/// Emitted for a deposit into a pool.
#[derive(Clone, Copy, Debug, PartialEq, Eq)]
pub struct DepositEvent {
    /// The depositor.
    pub from: [u8; 32],
    /// The pool account.
    pub pool: [u8; 32],
    /// Tokens deposited, in base units.
    pub amount: u64,
    /// Unix time of the deposit.
    pub timestamp: i64,
}

} // verus!
