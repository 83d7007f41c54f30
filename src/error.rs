use vstd::prelude::*;

verus! {

/// The two native denominations that a burn is paid in.
#[derive(Clone, Copy, Debug, PartialEq, Eq, Structural)]
pub enum Denom {
    Lunc,
    Ustc,
}

/// Every way an operation of the engine can fail. A failed operation
/// changes nothing.
#[derive(Clone, Copy, Debug, PartialEq, Eq, Structural)]
pub enum ContractError {
    /// The call came before the configured start time.
    NotStart { initial_timestamp: u64 },
    /// The caller is not the configured owner.
    NotOwner {},
    /// The caller is not the configured fee claimer.
    NotClaimer {},
    /// The funds attached to a burn differ from what it costs.
    NotMatchedFund { symbol: Denom, amount: u128, required: u128 },
    /// The batch number lies outside `[1, 10000]`.
    NotValidBatchNumber {},
    /// There is no reward to claim.
    NoRewards {},
    /// There are no fees to claim.
    NoFees {},
    /// A stake or unstake of zero.
    AmountIsZero {},
    /// An unstake of more than the matured stake.
    AmountGreaterThanWithdrawableStake {},
    /// Both pending stake slots already hold other maturation cycles.
    StakeSlotsFull {},
    /// The engine's invariants were broken: an internal quantity left its
    /// range (overflow, underflow, division by zero) or a record it keeps is
    /// missing.
    InvariantViolation {},
    /// A lottery cycle that had no burn.
    NoFireInCycle { cycle: u64 },
    /// A lottery dividend already taken.
    AlreadyWithdrawed { cycle: u64 },
}

} // verus!
