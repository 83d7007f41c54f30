use std::collections::HashMap;
use vstd::prelude::*;

verus! {

broadcast use vstd::std_specs::hash::group_hash_axioms;

/// Scale of the fee-per-stake index.
pub const SCALING_FACTOR: u128 = 10_000_000_000_000;
/// Denominator of every rate given in basis points.
pub const MAX_BPS: u64 = 100000;
/// Largest number of batches one burn may hold.
pub const MAX_BATCH_NUMBER: u64 = 10000;
/// Emission of the first cycle.
pub const INITIAL_CYCLE_REWARD: u128 = 100_000_000_000;
/// Each cycle's emission is the last one times this over `DECAY_DENOMINATOR`.
pub const DECAY_NUMERATOR: u128 = 10000;
pub const DECAY_DENOMINATOR: u128 = 10020;

/// Configuration, fixed at creation but for the two addresses the owner may
/// reassign. Addresses are canonical bytes.
#[derive(Clone, Debug)]
pub struct Config {
    pub dfc_address: Vec<u8>,
    pub lunc_batch_amount: u128,
    pub ustc_batch_amount: u128,
    pub initial_timestamp: u64,
    pub ustc_claimer_address: Vec<u8>,
    pub owner: Vec<u8>,
    pub protocol_fees_reserved_rate: u64,
    pub burned_address: Vec<u8>,
    pub period_duration: u64,
}

/// The global accrual state.
#[derive(Clone, Copy, Debug, PartialEq, Eq, Structural)]
pub struct BaseState {
    pub total_number_of_batches: u64,
    pub current_cycle: u64,
    pub current_started_cycle: u64,
    pub previous_started_cycle: u64,
    pub last_started_cycle: u64,
    pub pending_fees: u128,
    pub pending_stake: u128,
    pub pending_stake_withdrawal: u128,
    pub current_cycle_reward: u128,
    pub last_cycle_reward: u128,
    pub total_protocol_fees_reserved: u128,
    pub withdrawed_protocol_fees_reserved: u128,
}

/// One user's checkpoints and balances. A pending stake slot is empty when
/// its cycle is zero; the first slot is filled before the second.
#[derive(Clone, Copy, Debug, PartialEq, Eq, Structural)]
pub struct UserState {
    pub acc_cycle_batches_burned: u64,
    pub last_active_cycle: u64,
    pub acc_rewards: u128,
    pub acc_accrued_fees: u128,
    pub last_fee_update_cycle: u64,
    pub acc_withdrawable_stake: u128,
    pub acc_first_stake: u64,
    pub first_stake_amount: u128,
    pub acc_second_stake: u64,
    pub second_stake_amount: u128,
}

impl UserState {
    /// A user that has never acted.
    pub fn new() -> (r: UserState)
        ensures
            r == UserState::zero(),
    {
        UserState {
            acc_cycle_batches_burned: 0,
            last_active_cycle: 0,
            acc_rewards: 0,
            acc_accrued_fees: 0,
            last_fee_update_cycle: 0,
            acc_withdrawable_stake: 0,
            acc_first_stake: 0,
            first_stake_amount: 0,
            acc_second_stake: 0,
            second_stake_amount: 0,
        }
    }

    pub open spec fn zero() -> UserState {
        UserState {
            acc_cycle_batches_burned: 0,
            last_active_cycle: 0,
            acc_rewards: 0,
            acc_accrued_fees: 0,
            last_fee_update_cycle: 0,
            acc_withdrawable_stake: 0,
            acc_first_stake: 0,
            first_stake_amount: 0,
            acc_second_stake: 0,
            second_stake_amount: 0,
        }
    }
}

/// What the engine holds, as mathematical maps: the global state and the
/// per-cycle tables. A cycle missing from a table reads as zero.
pub ghost struct Ledger {
    pub base: BaseState,
    pub summed: Map<u64, u128>,
    pub reward: Map<u64, u128>,
    pub batches: Map<u64, u64>,
    pub accrued: Map<u64, u128>,
    pub index: Map<u64, u128>,
}

/// The value of a cycle in a table, zero where none was written.
pub open spec fn at(m: Map<u64, u128>, k: u64) -> u128 {
    if m.contains_key(k) {
        m[k]
    } else {
        0
    }
}

pub open spec fn at64(m: Map<u64, u64>, k: u64) -> u64 {
    if m.contains_key(k) {
        m[k]
    } else {
        0
    }
}

/// The engine: configuration, global state and per-cycle tables.
pub struct DFCState {
    pub config: Config,
    pub base_state: BaseState,
    pub summed_cycle_stakes: HashMap<u64, u128>,
    pub reward_per_cycle: HashMap<u64, u128>,
    pub cycle_total_batches_burned: HashMap<u64, u64>,
    pub cycle_accrued_fees: HashMap<u64, u128>,
    pub cycle_fees_per_stake_summed: HashMap<u64, u128>,
}

impl DFCState {
    /// Well-formedness: a positive period and ordered window markers.
    pub open spec fn wf(&self) -> bool {
        &&& self.config.period_duration > 0
        &&& crate::model::ordered(self.base_state)
    }
}

impl View for DFCState {
    type V = Ledger;

    open spec fn view(&self) -> Ledger {
        Ledger {
            base: self.base_state,
            summed: self.summed_cycle_stakes@,
            reward: self.reward_per_cycle@,
            batches: self.cycle_total_batches_burned@,
            accrued: self.cycle_accrued_fees@,
            index: self.cycle_fees_per_stake_summed@,
        }
    }
}

/// Reads a cycle of a table, zero where none was written.
pub fn read(m: &HashMap<u64, u128>, k: u64) -> (r: u128)
    ensures
        r == at(m@, k),
{
    match m.get(&k) {
        Some(v) => *v,
        None => 0,
    }
}

pub fn read64(m: &HashMap<u64, u64>, k: u64) -> (r: u64)
    ensures
        r == at64(m@, k),
{
    match m.get(&k) {
        Some(v) => *v,
        None => 0,
    }
}

} // verus!
