use vstd::prelude::*;

verus! {

/// Every way an operation of the manager can be refused.
#[derive(Clone, Copy, Debug, PartialEq, Eq, Structural)]
pub enum LiquidityManagerError {
    /// Held back for a guard that skips a rebalance while the price is in range.
    NoRebalanceNeeded,
    /// The caller of an executor-gated operation is not the record's executor.
    InvalidExecutor,
    /// Held back for checks on the pool's own state.
    InvalidPoolData,
    /// A computed amount does not fit its integer type.
    CalculationOverflow,
    /// Held back for a missing account.
    AccountNotFound,
    /// Held back for range validation of tick bounds.
    InvalidTickRange,
    /// The engine's position record is too short to hold the liquidity field.
    InvalidAccountData,
    /// The caller of an administrative operation is not the record's authority.
    InvalidAuthority,
    /// An account handed to an operation is not the one the record names.
    AccountMismatch,
}

} // verus!
