//! Creation of the engine and the privileged operations.
use std::collections::HashMap;
use crate::error::ContractError;
use crate::laws::claim_reserved_step;
use crate::msg::{InstantiateMsg, MigrateMsg};
use crate::state::{BaseState, Config, DFCState, Ledger, INITIAL_CYCLE_REWARD};
use vstd::prelude::*;

verus! {

broadcast use vstd::std_specs::hash::group_hash_axioms;

/// A byte-for-byte copy of an address.
pub fn copy_address(a: &Vec<u8>) -> (r: Vec<u8>)
    ensures
        r@ == a@,
{
    let mut r: Vec<u8> = Vec::new();
    let mut i: usize = 0;
    while i < a.len()
        invariant
            i <= a@.len(),
            r@ == a@.subrange(0, i as int),
        decreases a@.len() - i,
    {
        r.push(a[i]);
        i = i + 1;
        assert(r@ =~= a@.subrange(0, i as int));
    }
    assert(r@ =~= a@);
    r
}

/// Whether two addresses are the same.
pub fn same_address(a: &Vec<u8>, b: &Vec<u8>) -> (r: bool)
    ensures
        r == (a@ == b@),
{
    if a.len() != b.len() {
        return false;
    }
    let mut i: usize = 0;
    while i < a.len()
        invariant
            i <= a@.len(),
            a@.len() == b@.len(),
            forall|j: int| 0 <= j < i ==> a@[j] == b@[j],
        decreases a@.len() - i,
    {
        if a[i] != b[i] {
            return false;
        }
        i = i + 1;
    }
    assert(a@ =~= b@);
    true
}

/// The global state of a fresh engine: the seed emission opened in cycle 0.
pub open spec fn initial_base() -> BaseState {
    BaseState {
        total_number_of_batches: 0,
        current_cycle: 0,
        current_started_cycle: 0,
        previous_started_cycle: 0,
        last_started_cycle: 0,
        pending_fees: 0,
        pending_stake: 0,
        pending_stake_withdrawal: 0,
        current_cycle_reward: INITIAL_CYCLE_REWARD,
        last_cycle_reward: 0,
        total_protocol_fees_reserved: 0,
        withdrawed_protocol_fees_reserved: 0,
    }
}

/// Fails unless `sender` is the configured owner.
pub fn only_owner(config: &Config, sender: &Vec<u8>) -> (r: Result<bool, ContractError>)
    ensures
        match r {
            Ok(b) => b && sender@ == config.owner@,
            Err(e) => sender@ != config.owner@ && e == ContractError::NotOwner {  },
        },
{
    if !same_address(sender, &config.owner) {
        return Err(ContractError::NotOwner {  });
    }
    Ok(true)
}

/// Fails unless `sender` is the configured fee claimer.
pub fn only_claimer(config: &Config, sender: &Vec<u8>) -> (r: Result<bool, ContractError>)
    ensures
        match r {
            Ok(b) => b && sender@ == config.ustc_claimer_address@,
            Err(e) => sender@ != config.ustc_claimer_address@ && e == ContractError::NotClaimer {  },
        },
{
    if !same_address(sender, &config.ustc_claimer_address) {
        return Err(ContractError::NotClaimer {  });
    }
    Ok(true)
}

impl DFCState {
    /// Creates the engine, owned by `sender`, with the seed emission recorded
    /// for cycle 0 as both its reward and its total stake.
    pub fn instantiate(sender: &Vec<u8>, msg: InstantiateMsg) -> (r: DFCState)
        requires
            msg.period_duration > 0,
        ensures
            r.wf(),
            r@ == (Ledger {
                base: initial_base(),
                summed: map![0u64 => INITIAL_CYCLE_REWARD],
                reward: map![0u64 => INITIAL_CYCLE_REWARD],
                batches: Map::empty(),
                accrued: Map::empty(),
                index: Map::empty(),
            }),
            r.config.owner@ == sender@,
            r.config.dfc_address@ == msg.dfc_address@,
            r.config.ustc_claimer_address@ == msg.ustc_claimer_address@,
            r.config.burned_address@ == msg.burned_address@,
            r.config.lunc_batch_amount == msg.lunc_batch_amount,
            r.config.ustc_batch_amount == msg.ustc_batch_amount,
            r.config.initial_timestamp == msg.initial_timestamp,
            r.config.protocol_fees_reserved_rate == msg.protocol_fees_reserved_rate,
            r.config.period_duration == msg.period_duration,
    {
        let config = Config {
            dfc_address: msg.dfc_address,
            lunc_batch_amount: msg.lunc_batch_amount,
            ustc_batch_amount: msg.ustc_batch_amount,
            initial_timestamp: msg.initial_timestamp,
            ustc_claimer_address: msg.ustc_claimer_address,
            owner: copy_address(sender),
            protocol_fees_reserved_rate: msg.protocol_fees_reserved_rate,
            burned_address: msg.burned_address,
            period_duration: msg.period_duration,
        };
        let base_state = BaseState {
            total_number_of_batches: 0,
            current_cycle: 0,
            current_started_cycle: 0,
            previous_started_cycle: 0,
            last_started_cycle: 0,
            pending_fees: 0,
            pending_stake: 0,
            pending_stake_withdrawal: 0,
            current_cycle_reward: INITIAL_CYCLE_REWARD,
            last_cycle_reward: 0,
            total_protocol_fees_reserved: 0,
            withdrawed_protocol_fees_reserved: 0,
        };
        let mut summed_cycle_stakes: HashMap<u64, u128> = HashMap::new();
        summed_cycle_stakes.insert(0, INITIAL_CYCLE_REWARD);
        let mut reward_per_cycle: HashMap<u64, u128> = HashMap::new();
        reward_per_cycle.insert(0, INITIAL_CYCLE_REWARD);
        let r = DFCState {
            config,
            base_state,
            summed_cycle_stakes,
            reward_per_cycle,
            cycle_total_batches_burned: HashMap::new(),
            cycle_accrued_fees: HashMap::new(),
            cycle_fees_per_stake_summed: HashMap::new(),
        };
        assert(r@.summed =~= map![0u64 => INITIAL_CYCLE_REWARD]);
        assert(r@.reward =~= map![0u64 => INITIAL_CYCLE_REWARD]);
        r
    }

    /// Whether the engine is well-formed, as every operation requires.
    pub fn is_well_formed(&self) -> (r: bool)
        ensures
            r == self.wf(),
    {
        let b = &self.base_state;
        self.config.period_duration > 0 && b.last_started_cycle <= b.current_started_cycle
            && b.current_started_cycle <= b.current_cycle && b.withdrawed_protocol_fees_reserved
            <= b.total_protocol_fees_reserved
    }

    /// Migration changes nothing.
    pub fn migrate(&self, _msg: MigrateMsg) -> (r: Result<(), ContractError>)
        ensures
            r is Ok,
    {
        Ok(())
    }

    /// Reassigns the fee claimer; only the owner may.
    pub fn set_ustc_claimer(&mut self, sender: &Vec<u8>, ustc_claimer: Vec<u8>) -> (r: Result<
        (),
        ContractError,
    >)
        ensures
            final(self)@ == old(self)@,
            final(self).config.owner == old(self).config.owner,
            final(self).config.dfc_address == old(self).config.dfc_address,
            final(self).config.burned_address == old(self).config.burned_address,
            final(self).config.lunc_batch_amount == old(self).config.lunc_batch_amount,
            final(self).config.ustc_batch_amount == old(self).config.ustc_batch_amount,
            final(self).config.initial_timestamp == old(self).config.initial_timestamp,
            final(self).config.protocol_fees_reserved_rate == old(
                self,
            ).config.protocol_fees_reserved_rate,
            final(self).config.period_duration == old(self).config.period_duration,
            match r {
                Ok(_) => sender@ == old(self).config.owner@
                    && final(self).config.ustc_claimer_address == ustc_claimer,
                Err(e) => sender@ != old(self).config.owner@ && e == ContractError::NotOwner {  }
                    && final(self).config.ustc_claimer_address == old(
                        self,
                    ).config.ustc_claimer_address,
            },
    {
        match only_owner(&self.config, sender) {
            Ok(_) => {},
            Err(e) => { return Err(e) },
        }
        self.config.ustc_claimer_address = ustc_claimer;
        Ok(())
    }

    /// Reassigns the reward token's address; only the owner may.
    pub fn set_dfc_addr(&mut self, sender: &Vec<u8>, dfc_addr: Vec<u8>) -> (r: Result<
        (),
        ContractError,
    >)
        ensures
            final(self)@ == old(self)@,
            final(self).config.owner == old(self).config.owner,
            final(self).config.ustc_claimer_address == old(self).config.ustc_claimer_address,
            final(self).config.burned_address == old(self).config.burned_address,
            final(self).config.lunc_batch_amount == old(self).config.lunc_batch_amount,
            final(self).config.ustc_batch_amount == old(self).config.ustc_batch_amount,
            final(self).config.initial_timestamp == old(self).config.initial_timestamp,
            final(self).config.protocol_fees_reserved_rate == old(
                self,
            ).config.protocol_fees_reserved_rate,
            final(self).config.period_duration == old(self).config.period_duration,
            match r {
                Ok(_) => sender@ == old(self).config.owner@ && final(self).config.dfc_address
                    == dfc_addr,
                Err(e) => sender@ != old(self).config.owner@ && e == ContractError::NotOwner {  }
                    && final(self).config.dfc_address == old(self).config.dfc_address,
            },
    {
        match only_owner(&self.config, sender) {
            Ok(_) => {},
            Err(e) => { return Err(e) },
        }
        self.config.dfc_address = dfc_addr;
        Ok(())
    }

    /// Pays the claimer the reserve not yet withdrawn and marks all of it
    /// withdrawn; only the claimer may. Yields the amount to send.
    pub fn claim_ustc_reserved_fees(&mut self, sender: &Vec<u8>) -> (r: Result<u128, ContractError>)
        requires
            old(self).wf(),
        ensures
            final(self).wf(),
            final(self).config == old(self).config,
            match r {
                Ok(amount) => sender@ == old(self).config.ustc_claimer_address@ && (final(self)@, amount)
                    == claim_reserved_step(old(self)@),
                Err(e) => sender@ != old(self).config.ustc_claimer_address@ && e
                    == ContractError::NotClaimer {  } && final(self)@ == old(self)@,
            },
    {
        match only_claimer(&self.config, sender) {
            Ok(_) => {},
            Err(e) => { return Err(e) },
        }
        let b = self.base_state;
        let amount = b.total_protocol_fees_reserved - b.withdrawed_protocol_fees_reserved;
        self.base_state.withdrawed_protocol_fees_reserved = b.total_protocol_fees_reserved;
        Ok(amount)
    }
}

} // verus!
