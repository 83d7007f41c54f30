//! Messages and query answers, in the engine's own plain types. Addresses
//! are canonical bytes.
use crate::state::BaseState;
use vstd::prelude::*;

verus! {

/// The parameters the engine is created with.
#[derive(Clone, Debug)]
pub struct InstantiateMsg {
    pub dfc_address: Vec<u8>,
    pub lunc_batch_amount: u128,
    pub ustc_batch_amount: u128,
    pub initial_timestamp: u64,
    pub ustc_claimer_address: Vec<u8>,
    pub protocol_fees_reserved_rate: u64,
    pub burned_address: Vec<u8>,
    pub period_duration: u64,
}

/// The operations a caller may ask for.
#[derive(Clone, Debug)]
pub enum ExecuteMsg {
    BurnBatch { batch_number: u64 },
    ClaimRewards { receipt_address: Vec<u8> },
    ClaimFees {},
    Stake { amount: u128 },
    Unstake { amount: u128 },
    SetUstcClaimer { ustc_claimer_address: Vec<u8> },
    ClaimUstcReservedFees {},
    SetDfcAddress { dfc_address: Vec<u8> },
}

/// The read-only projections a caller may ask for.
#[derive(Clone, Debug)]
pub enum QueryMsg {
    GetConfig {},
    GetBaseState {},
    GetCycleInfo { cycle: u64 },
    GetUserInfo { user_address: String, cycle: u64 },
    GetAccWithdrawableStake { user_address: String },
    GetUnclaimedRewards { user_address: String },
    GetUnclaimedFees { user_address: String },
    GetCurrentCycleRewards {},
}

/// A migration carries nothing.
#[derive(Clone, Copy, Debug, PartialEq, Eq, Structural)]
pub struct MigrateMsg {}

#[derive(Clone, Debug)]
pub struct GetConfigResponse {
    pub dfc_address: Vec<u8>,
    pub lunc_batch_amount: u128,
    pub ustc_batch_amount: u128,
    pub initial_timestamp: u64,
    pub ustc_claimer_address: Vec<u8>,
    pub owner: Vec<u8>,
    pub protocol_fees_reserved_rate: u64,
    pub period_duration: u64,
}

#[derive(Clone, Copy, Debug, PartialEq, Eq, Structural)]
pub struct GetBaseStateResponse {
    pub current_block_time: u64,
    pub base_state: BaseState,
}

#[derive(Clone, Copy, Debug, PartialEq, Eq, Structural)]
pub struct GetCycleInfoResponse {
    pub summed_cycle_stakes: u128,
    pub reward_per_cycle: u128,
    pub cycle_total_batches_burned: u64,
    pub cycle_accrued_fees: u128,
    pub cycle_fees_per_stake_summed: u128,
}

#[derive(Clone, Copy, Debug, PartialEq, Eq, Structural)]
pub struct GetUserInfoResponse {
    pub acc_stake_cycle: u128,
    pub acc_cycle_batches_burned: u64,
    pub last_active_cycle: u64,
    pub acc_rewards: u128,
    pub acc_accrued_fees: u128,
    pub last_fee_update_cycle: u64,
    pub acc_withdrawable_stake: u128,
    pub acc_first_stake: u64,
    pub acc_second_stake: u64,
}

#[derive(Clone, Copy, Debug, PartialEq, Eq, Structural)]
pub struct GetWithdrawableStakeResponse {
    pub amount: u128,
}

#[derive(Clone, Copy, Debug, PartialEq, Eq, Structural)]
pub struct GetUnclaimedRewardsResponse {
    pub amount: u128,
}

#[derive(Clone, Copy, Debug, PartialEq, Eq, Structural)]
pub struct GetCurrentCycleRewards {
    pub amount: u128,
}

#[derive(Clone, Copy, Debug, PartialEq, Eq, Structural)]
pub struct GetUnclaimedFees {
    pub amount: u128,
}

} // verus!
