//! Read-only projections, and previews of what a claim made now would pay:
//! the same sync and settlement as the operations, with nothing written.
use crate::contract::copy_address;
use crate::error::ContractError;
use crate::model::{decayed, fits, prepare};
use crate::msg::{
    GetBaseStateResponse, GetConfigResponse, GetCurrentCycleRewards, GetCycleInfoResponse,
    GetUnclaimedFees, GetUnclaimedRewardsResponse, GetUserInfoResponse,
    GetWithdrawableStakeResponse,
};
use crate::state::{
    at, at64, read, read64, DFCState, Ledger, UserState, DECAY_DENOMINATOR, DECAY_NUMERATOR,
};
use vstd::prelude::*;

verus! {

/// The stake a user has pending for `cycle`: the amount of the slot that
/// targets it, zero where none does.
pub open spec fn stake_at(u: UserState, cycle: u64) -> u128 {
    if cycle != 0 && cycle == u.acc_first_stake {
        u.first_stake_amount
    } else if cycle != 0 && cycle == u.acc_second_stake {
        u.second_stake_amount
    } else {
        0
    }
}

/// The per-user snapshot for `cycle`.
pub fn query_user_info(user: &UserState, cycle: u64) -> (r: GetUserInfoResponse)
    ensures
        r == (GetUserInfoResponse {
            acc_stake_cycle: stake_at(*user, cycle),
            acc_cycle_batches_burned: user.acc_cycle_batches_burned,
            last_active_cycle: user.last_active_cycle,
            acc_rewards: user.acc_rewards,
            acc_accrued_fees: user.acc_accrued_fees,
            last_fee_update_cycle: user.last_fee_update_cycle,
            acc_withdrawable_stake: user.acc_withdrawable_stake,
            acc_first_stake: user.acc_first_stake,
            acc_second_stake: user.acc_second_stake,
        }),
{
    let acc_stake_cycle = if cycle != 0 && cycle == user.acc_first_stake {
        user.first_stake_amount
    } else if cycle != 0 && cycle == user.acc_second_stake {
        user.second_stake_amount
    } else {
        0
    };
    GetUserInfoResponse {
        acc_stake_cycle,
        acc_cycle_batches_burned: user.acc_cycle_batches_burned,
        last_active_cycle: user.last_active_cycle,
        acc_rewards: user.acc_rewards,
        acc_accrued_fees: user.acc_accrued_fees,
        last_fee_update_cycle: user.last_fee_update_cycle,
        acc_withdrawable_stake: user.acc_withdrawable_stake,
        acc_first_stake: user.acc_first_stake,
        acc_second_stake: user.acc_second_stake,
    }
}

impl DFCState {
    /// The configuration.
    pub fn query_config(&self) -> (r: GetConfigResponse)
        ensures
            r.dfc_address@ == self.config.dfc_address@,
            r.ustc_claimer_address@ == self.config.ustc_claimer_address@,
            r.owner@ == self.config.owner@,
            r.lunc_batch_amount == self.config.lunc_batch_amount,
            r.ustc_batch_amount == self.config.ustc_batch_amount,
            r.initial_timestamp == self.config.initial_timestamp,
            r.protocol_fees_reserved_rate == self.config.protocol_fees_reserved_rate,
            r.period_duration == self.config.period_duration,
    {
        GetConfigResponse {
            dfc_address: copy_address(&self.config.dfc_address),
            lunc_batch_amount: self.config.lunc_batch_amount,
            ustc_batch_amount: self.config.ustc_batch_amount,
            initial_timestamp: self.config.initial_timestamp,
            ustc_claimer_address: copy_address(&self.config.ustc_claimer_address),
            owner: copy_address(&self.config.owner),
            protocol_fees_reserved_rate: self.config.protocol_fees_reserved_rate,
            period_duration: self.config.period_duration,
        }
    }

    /// The global state as stored, with the time of the query.
    pub fn query_base_state(&self, now: u64) -> (r: GetBaseStateResponse)
        ensures
            r == (GetBaseStateResponse { current_block_time: now, base_state: self.base_state }),
    {
        GetBaseStateResponse { current_block_time: now, base_state: self.base_state }
    }

    /// The per-cycle snapshot, zeros where nothing was written.
    pub fn query_cycle_info(&self, cycle: u64) -> (r: GetCycleInfoResponse)
        ensures
            r == (GetCycleInfoResponse {
                summed_cycle_stakes: at(self@.summed, cycle),
                reward_per_cycle: at(self@.reward, cycle),
                cycle_total_batches_burned: at64(self@.batches, cycle),
                cycle_accrued_fees: at(self@.accrued, cycle),
                cycle_fees_per_stake_summed: at(self@.index, cycle),
            }),
    {
        GetCycleInfoResponse {
            summed_cycle_stakes: read(&self.summed_cycle_stakes, cycle),
            reward_per_cycle: read(&self.reward_per_cycle, cycle),
            cycle_total_batches_burned: read64(&self.cycle_total_batches_burned, cycle),
            cycle_accrued_fees: read(&self.cycle_accrued_fees, cycle),
            cycle_fees_per_stake_summed: read(&self.cycle_fees_per_stake_summed, cycle),
        }
    }

    /// The user as an operation made now would find it once settled.
    fn preview(&self, user: &UserState, now: u64) -> (r: Result<UserState, ContractError>)
        requires
            self.wf(),
        ensures
            match r {
                Ok(u) => prepare(self@, self.config, *user, now, false) matches Ok((_, u2)) && u
                    == u2,
                Err(e) => prepare(self@, self.config, *user, now, false) == Err::<
                    (Ledger, UserState),
                    ContractError,
                >(e),
            },
    {
        match self.prepare_plan(*user, now, false) {
            Ok((_, u)) => Ok(u),
            Err(e) => Err(e),
        }
    }

    /// The matured stake the user could withdraw now.
    pub fn query_acc_withdrawable_stake(&self, user: &UserState, now: u64) -> (r: Result<
        GetWithdrawableStakeResponse,
        ContractError,
    >)
        requires
            self.wf(),
        ensures
            match prepare(self@, self.config, *user, now, false) {
                Ok((_, u)) => r == Ok::<GetWithdrawableStakeResponse, ContractError>(
                    GetWithdrawableStakeResponse { amount: u.acc_withdrawable_stake },
                ),
                Err(e) => r == Err::<GetWithdrawableStakeResponse, ContractError>(e),
            },
    {
        match self.preview(user, now) {
            Ok(u) => Ok(GetWithdrawableStakeResponse { amount: u.acc_withdrawable_stake }),
            Err(e) => Err(e),
        }
    }

    /// The reward a claim made now would pay, zero where it would find none.
    pub fn query_unclaimed_rewards(&self, user: &UserState, now: u64) -> (r: Result<
        GetUnclaimedRewardsResponse,
        ContractError,
    >)
        requires
            self.wf(),
        ensures
            match prepare(self@, self.config, *user, now, false) {
                Ok((_, u)) => if u.acc_rewards < u.acc_withdrawable_stake {
                    r == Err::<GetUnclaimedRewardsResponse, ContractError>(
                        ContractError::InvariantViolation {  },
                    )
                } else {
                    r == Ok::<GetUnclaimedRewardsResponse, ContractError>(
                        GetUnclaimedRewardsResponse {
                            amount: (u.acc_rewards - u.acc_withdrawable_stake) as u128,
                        },
                    )
                },
                Err(e) => r == Err::<GetUnclaimedRewardsResponse, ContractError>(e),
            },
    {
        match self.preview(user, now) {
            Ok(u) => if u.acc_rewards < u.acc_withdrawable_stake {
                Err(ContractError::InvariantViolation {  })
            } else {
                Ok(GetUnclaimedRewardsResponse { amount: u.acc_rewards - u.acc_withdrawable_stake })
            },
            Err(e) => Err(e),
        }
    }

    /// The fees a claim made now would pay.
    pub fn query_unclaimed_fees(&self, user: &UserState, now: u64) -> (r: Result<
        GetUnclaimedFees,
        ContractError,
    >)
        requires
            self.wf(),
        ensures
            match prepare(self@, self.config, *user, now, false) {
                Ok((_, u)) => r == Ok::<GetUnclaimedFees, ContractError>(
                    GetUnclaimedFees { amount: u.acc_accrued_fees },
                ),
                Err(e) => r == Err::<GetUnclaimedFees, ContractError>(e),
            },
    {
        match self.preview(user, now) {
            Ok(u) => Ok(GetUnclaimedFees { amount: u.acc_accrued_fees }),
            Err(e) => Err(e),
        }
    }

    /// The last emission decayed once: the emission of the window opened last.
    pub fn query_current_cycle_rewards(&self) -> (r: Result<GetCurrentCycleRewards, ContractError>)
        ensures
            match r {
                Ok(v) => fits(self.base_state.last_cycle_reward * DECAY_NUMERATOR) && v.amount
                    == decayed(self.base_state.last_cycle_reward),
                Err(e) => !fits(self.base_state.last_cycle_reward * DECAY_NUMERATOR) && e
                    == ContractError::InvariantViolation {  },
            },
    {
        match self.base_state.last_cycle_reward.checked_mul(DECAY_NUMERATOR) {
            Some(v) => Ok(GetCurrentCycleRewards { amount: v / DECAY_DENOMINATOR }),
            None => Err(ContractError::InvariantViolation {  }),
        }
    }
}

} // verus!
