//! The engine's operations. Each one first computes, without touching any
//! state, the sync of the global state and the settlement of the acting
//! user, makes all its checks, and only then commits: a failure changes
//! nothing.
use crate::error::{ContractError, Denom};
use crate::model::{
    advance, burn_batch_step, claim_fees_step, claim_rewards_step, close, cycle_at, debit_stake,
    decayed, fee_per_batch, fee_share, fits, lemma_sync_ordered, mature, open_window,
    opened_stake, ordered, place, prepare, release, reserved_of, settle, settle_batches,
    settle_fees, shift_window, stake_step, sync, unstake_step,
};
use crate::state::{
    at, read, read64, BaseState, MAX_BATCH_NUMBER, MAX_BPS, DFCState, Ledger, UserState, DECAY_DENOMINATOR,
    DECAY_NUMERATOR, SCALING_FACTOR,
};
use vstd::prelude::*;

verus! {

broadcast use vstd::std_specs::hash::group_hash_axioms;

/// The writes that bring the global state to the resolved cycle: the new
/// global state, the index of a freshly closed window, and the emission and
/// total stake of a freshly opened one.
pub struct SyncPlan {
    pub base: BaseState,
    pub fee_index: Option<(u64, u128)>,
    pub emission: Option<(u64, u128, u128)>,
}

impl SyncPlan {
    /// Where the writes may fall.
    pub open spec fn keyed(&self) -> bool {
        &&& self.base.last_started_cycle < u64::MAX
        &&& (self.fee_index matches Some((k, _)) ==> k == self.base.last_started_cycle + 1)
        &&& (self.emission matches Some((c, _, _)) ==> c == self.base.current_cycle)
    }
}

/// The ledger after a plan's writes.
pub open spec fn applied(l: Ledger, p: SyncPlan) -> Ledger {
    Ledger {
        base: p.base,
        summed: match p.emission {
            Some((c, _, s)) => l.summed.insert(c, s),
            None => l.summed,
        },
        reward: match p.emission {
            Some((c, e, _)) => l.reward.insert(c, e),
            None => l.reward,
        },
        batches: l.batches,
        accrued: l.accrued,
        index: match p.fee_index {
            Some((k, v)) => l.index.insert(k, v),
            None => l.index,
        },
    }
}

impl DFCState {
    /// Cycle resolution; fails before the start time.
    pub fn get_current_cycle(&self, now: u64) -> (r: Result<u64, ContractError>)
        requires
            self.config.period_duration > 0,
        ensures
            match r {
                Ok(c) => now >= self.config.initial_timestamp && c == cycle_at(self.config, now),
                Err(e) => now < self.config.initial_timestamp && e == (ContractError::NotStart {
                    initial_timestamp: self.config.initial_timestamp,
                }),
            },
    {
        if now < self.config.initial_timestamp {
            return Err(ContractError::NotStart { initial_timestamp: self.config.initial_timestamp });
        }
        let elapsed: u64 = now - self.config.initial_timestamp;
        Ok(elapsed / self.config.period_duration)
    }

    /// Cycle advancement.
    pub fn calculate_cycle(&self, cycle: u64) -> (r: BaseState)
        ensures
            r == advance(self@, cycle).base,
    {
        let mut b = self.base_state;
        if cycle > b.current_cycle {
            b.current_cycle = cycle;
        }
        b
    }

    /// Fee-index closure on `base` over this engine's tables: the new global
    /// state and the index write, if any.
    pub fn update_cycle_fees_per_stake_summed(&self, base: BaseState) -> (r: Result<
        (BaseState, Option<(u64, u128)>),
        ContractError,
    >)
        requires
            base.last_started_cycle <= base.current_started_cycle,
            base.current_started_cycle < u64::MAX,
        ensures
            ({
                let l = Ledger { base, ..self@ };
                match r {
                    Ok((b, w)) => close(l) == Ok::<Ledger, ContractError>(
                        Ledger {
                            base: b,
                            index: match w {
                                Some((k, v)) => l.index.insert(k, v),
                                None => l.index,
                            },
                            ..l
                        },
                    ) && b.last_started_cycle < u64::MAX && (w matches Some((k, _)) ==> k
                        == b.last_started_cycle + 1) && b.current_cycle == base.current_cycle
                        && b.last_started_cycle <= b.current_started_cycle
                        && b.current_started_cycle == base.current_started_cycle,
                    Err(e) => close(l) == Err::<Ledger, ContractError>(e),
                }
            }),
    {
        let mut b = base;
        if b.current_cycle != b.current_started_cycle {
            b.previous_started_cycle = b.last_started_cycle + 1;
            b.last_started_cycle = b.current_started_cycle;
        }
        assert(b == shift_window(base));
        let key: u64 = b.last_started_cycle + 1;
        if b.current_cycle > b.last_started_cycle && !self.cycle_fees_per_stake_summed.contains_key(
            &key,
        ) {
            let stakes = read(&self.summed_cycle_stakes, b.last_started_cycle);
            let fees = read(&self.cycle_accrued_fees, b.last_started_cycle);
            let prev = read(&self.cycle_fees_per_stake_summed, b.previous_started_cycle);
            if stakes != 0 {
                let carried = match fees.checked_add(b.pending_fees) {
                    Some(v) => v,
                    None => { return Err(ContractError::InvariantViolation {  }) },
                };
                let scaled = match carried.checked_mul(SCALING_FACTOR) {
                    Some(v) => v,
                    None => { return Err(ContractError::InvariantViolation {  }) },
                };
                let delta = scaled / stakes;
                let index = match prev.checked_add(delta) {
                    Some(v) => v,
                    None => { return Err(ContractError::InvariantViolation {  }) },
                };
                b.pending_fees = 0;
                Ok((b, Some((key, index))))
            } else {
                let pending = match b.pending_fees.checked_add(fees) {
                    Some(v) => v,
                    None => { return Err(ContractError::InvariantViolation {  }) },
                };
                b.pending_fees = pending;
                Ok((b, Some((key, prev))))
            }
        } else {
            Ok((b, None))
        }
    }

    /// Emission window opening on `base` over this engine's tables: the new
    /// global state and the emission write, if any. The opening reads no
    /// index, so `ix` may be any.
    pub fn set_up_new_cycle(&self, base: BaseState, Ghost(ix): Ghost<Map<u64, u128>>) -> (r: Result<
        (BaseState, Option<(u64, u128, u128)>),
        ContractError,
    >)
        ensures
            ({
                let l = Ledger { base, index: ix, ..self@ };
                match r {
                    Ok((b, w)) => open_window(l) == Ok::<Ledger, ContractError>(
                        Ledger {
                            base: b,
                            summed: match w {
                                Some((c, _, s)) => l.summed.insert(c, s),
                                None => l.summed,
                            },
                            reward: match w {
                                Some((c, e, _)) => l.reward.insert(c, e),
                                None => l.reward,
                            },
                            ..l
                        },
                    ) && (w matches Some((c, _, _)) ==> c == b.current_cycle)
                        && b.current_cycle == base.current_cycle
                        && b.last_started_cycle == base.last_started_cycle,
                    Err(e) => open_window(l) == Err::<Ledger, ContractError>(e),
                }
            }),
    {
        let ghost l = Ledger { base, index: ix, ..self@ };
        let mut b = base;
        let c = b.current_cycle;
        if read(&self.reward_per_cycle, c) != 0 {
            return Ok((b, None));
        }
        let scaled = match b.current_cycle_reward.checked_mul(DECAY_NUMERATOR) {
            Some(v) => v,
            None => { return Err(ContractError::InvariantViolation {  }) },
        };
        let emission = scaled / DECAY_DENOMINATOR;
        assert(emission == decayed(b.current_cycle_reward));
        let last = read(&self.summed_cycle_stakes, b.last_started_cycle);
        let with_emission = match last.checked_add(emission) {
            Some(v) => v,
            None => { return Err(ContractError::InvariantViolation {  }) },
        };
        let with_pending = match with_emission.checked_add(b.pending_stake) {
            Some(v) => v,
            None => { return Err(ContractError::InvariantViolation {  }) },
        };
        if with_pending < b.pending_stake_withdrawal {
            return Err(ContractError::InvariantViolation {  });
        }
        let total = with_pending - b.pending_stake_withdrawal;
        assert(total == opened_stake(l));
        b.last_cycle_reward = b.current_cycle_reward;
        b.current_cycle_reward = emission;
        b.current_started_cycle = c;
        b.pending_stake = 0;
        b.pending_stake_withdrawal = 0;
        Ok((b, Some((c, emission, total))))
    }

    /// The sync of the global state to `cycle`, as writes yet to be made.
    pub fn plan_sync(&self, cycle: u64, open: bool) -> (r: Result<SyncPlan, ContractError>)
        requires
            self.base_state.last_started_cycle <= self.base_state.current_started_cycle,
            self.base_state.current_started_cycle <= self.base_state.current_cycle,
        ensures
            match r {
                Ok(p) => sync(self@, cycle, open) == Ok::<Ledger, ContractError>(applied(self@, p))
                    && p.keyed() && (!open ==> p.emission is None),
                Err(e) => sync(self@, cycle, open) == Err::<Ledger, ContractError>(e),
            },
    {
        let b0 = self.calculate_cycle(cycle);
        if b0.current_cycle == u64::MAX {
            return Err(ContractError::InvariantViolation {  });
        }
        let (b1, fee_index) = match self.update_cycle_fees_per_stake_summed(b0) {
            Ok(v) => v,
            Err(e) => { return Err(e) },
        };
        let ghost l1 = Ledger {
            base: b1,
            index: match fee_index {
                Some((k, v)) => self@.index.insert(k, v),
                None => self@.index,
            },
            ..self@
        };
        if !open {
            let p = SyncPlan { base: b1, fee_index, emission: None };
            assert(applied(self@, p) == l1);
            return Ok(p);
        }
        let (b2, emission) = match self.set_up_new_cycle(b1, Ghost(l1.index)) {
            Ok(v) => v,
            Err(e) => { return Err(e) },
        };
        let p = SyncPlan { base: b2, fee_index, emission };
        Ok(p)
    }

    /// Makes a plan's writes.
    pub fn commit(&mut self, p: &SyncPlan)
        ensures
            final(self)@ == applied(old(self)@, *p),
            final(self).config == old(self).config,
    {
        self.base_state = p.base;
        match p.fee_index {
            Some((k, v)) => {
                self.cycle_fees_per_stake_summed.insert(k, v);
            },
            None => {},
        }
        match p.emission {
            Some((c, e, s)) => {
                self.reward_per_cycle.insert(c, e);
                self.summed_cycle_stakes.insert(c, s);
            },
            None => {},
        }
    }

    /// The fee index at `k` once the plan is made.
    fn index_after(&self, p: &SyncPlan, k: u64) -> (r: u128)
        ensures
            r == at(applied(self@, *p).index, k),
    {
        match p.fee_index {
            Some((k2, v)) => if k2 == k {
                v
            } else {
                read(&self.cycle_fees_per_stake_summed, k)
            },
            None => read(&self.cycle_fees_per_stake_summed, k),
        }
    }

    /// The emission of cycle `k` once the plan is made.
    fn reward_after(&self, p: &SyncPlan, k: u64) -> (r: u128)
        ensures
            r == at(applied(self@, *p).reward, k),
    {
        match p.emission {
            Some((c, e, _)) => if c == k {
                e
            } else {
                read(&self.reward_per_cycle, k)
            },
            None => read(&self.reward_per_cycle, k),
        }
    }

    /// Settlement, first step.
    fn flush_batches(&self, p: &SyncPlan, u: UserState) -> (r: Result<UserState, ContractError>)
        ensures
            r == settle_batches(applied(self@, *p), u),
    {
        let mut u = u;
        if p.base.current_cycle > u.last_active_cycle && u.acc_cycle_batches_burned != 0 {
            let total = read64(&self.cycle_total_batches_burned, u.last_active_cycle);
            let reward = self.reward_after(p, u.last_active_cycle);
            let minted = match (u.acc_cycle_batches_burned as u128).checked_mul(reward) {
                Some(v) => v,
                None => { return Err(ContractError::InvariantViolation {  }) },
            };
            if total == 0 {
                return Err(ContractError::InvariantViolation {  });
            }
            let acc = match u.acc_rewards.checked_add(minted / (total as u128)) {
                Some(v) => v,
                None => { return Err(ContractError::InvariantViolation {  }) },
            };
            u.acc_rewards = acc;
            u.acc_cycle_batches_burned = 0;
        }
        Ok(u)
    }

    /// `amount * (hi - lo) / SCALING_FACTOR`, or an error where it leaves
    /// the range.
    fn share(amount: u128, lo: u128, hi: u128) -> (r: Result<u128, ContractError>)
        ensures
            match r {
                Ok(v) => hi >= lo && fits(amount * (hi - lo)) && v == fee_share(amount, lo, hi),
                Err(e) => (hi < lo || !fits(amount * (hi - lo))) && e == ContractError::InvariantViolation {  },
            },
    {
        if hi < lo {
            return Err(ContractError::InvariantViolation {  });
        }
        match amount.checked_mul(hi - lo) {
            Some(v) => Ok(v / SCALING_FACTOR),
            None => Err(ContractError::InvariantViolation {  }),
        }
    }

    /// Settlement, second step.
    fn accrue_fees(&self, p: &SyncPlan, u: UserState) -> (r: Result<UserState, ContractError>)
        requires
            p.keyed(),
        ensures
            r == settle_fees(applied(self@, *p), u),
    {
        let mut u = u;
        let key: u64 = p.base.last_started_cycle + 1;
        if p.base.current_cycle > p.base.last_started_cycle && u.last_fee_update_cycle != key {
            let hi = self.index_after(p, key);
            let lo = self.index_after(p, u.last_fee_update_cycle);
            let added = match Self::share(u.acc_rewards, lo, hi) {
                Ok(v) => v,
                Err(e) => { return Err(e) },
            };
            let fees = match u.acc_accrued_fees.checked_add(added) {
                Some(v) => v,
                None => { return Err(ContractError::InvariantViolation {  }) },
            };
            u.acc_accrued_fees = fees;
            u.last_fee_update_cycle = key;
        }
        Ok(u)
    }

    /// Credits one matured stake slot.
    fn release_stake(&self, p: &SyncPlan, u: UserState, cycle: u64, amount: u128) -> (r: Result<
        UserState,
        ContractError,
    >)
        requires
            p.keyed(),
        ensures
            r == release(applied(self@, *p), u, cycle, amount),
    {
        let mut u = u;
        let rewards = match u.acc_rewards.checked_add(amount) {
            Some(v) => v,
            None => { return Err(ContractError::InvariantViolation {  }) },
        };
        let withdrawable = match u.acc_withdrawable_stake.checked_add(amount) {
            Some(v) => v,
            None => { return Err(ContractError::InvariantViolation {  }) },
        };
        let key: u64 = p.base.last_started_cycle + 1;
        if key > cycle {
            let hi = self.index_after(p, key);
            let lo = self.index_after(p, cycle);
            let added = match Self::share(amount, lo, hi) {
                Ok(v) => v,
                Err(e) => { return Err(e) },
            };
            let fees = match u.acc_accrued_fees.checked_add(added) {
                Some(v) => v,
                None => { return Err(ContractError::InvariantViolation {  }) },
            };
            u.acc_accrued_fees = fees;
        }
        u.acc_rewards = rewards;
        u.acc_withdrawable_stake = withdrawable;
        Ok(u)
    }

    /// Settlement, third step.
    fn mature_stakes(&self, p: &SyncPlan, u: UserState) -> (r: Result<UserState, ContractError>)
        requires
            p.keyed(),
        ensures
            r == mature(applied(self@, *p), u),
    {
        let c = p.base.current_cycle;
        if u.acc_first_stake == 0 || c <= u.acc_first_stake {
            return Ok(u);
        }
        let mut u2 = match self.release_stake(p, u, u.acc_first_stake, u.first_stake_amount) {
            Ok(v) => v,
            Err(e) => { return Err(e) },
        };
        u2.acc_first_stake = 0;
        u2.first_stake_amount = 0;
        if u.acc_second_stake == 0 {
            return Ok(u2);
        }
        if c > u.acc_second_stake {
            let mut u3 = match self.release_stake(p, u2, u.acc_second_stake, u.second_stake_amount) {
                Ok(v) => v,
                Err(e) => { return Err(e) },
            };
            u3.acc_second_stake = 0;
            u3.second_stake_amount = 0;
            Ok(u3)
        } else {
            u2.acc_first_stake = u.acc_second_stake;
            u2.first_stake_amount = u.second_stake_amount;
            u2.acc_second_stake = 0;
            u2.second_stake_amount = 0;
            Ok(u2)
        }
    }

    /// Settlement of one user against the state the plan leads to.
    pub fn update_stats(&self, p: &SyncPlan, u: UserState) -> (r: Result<UserState, ContractError>)
        requires
            p.keyed(),
        ensures
            r == settle(applied(self@, *p), u),
    {
        let u1 = match self.flush_batches(p, u) {
            Ok(v) => v,
            Err(e) => { return Err(e) },
        };
        let u2 = match self.accrue_fees(p, u1) {
            Ok(v) => v,
            Err(e) => { return Err(e) },
        };
        self.mature_stakes(p, u2)
    }

    /// Resolution, sync and settlement of `u`, as writes yet to be made.
    pub(crate) fn prepare_plan(&self, u: UserState, now: u64, open: bool) -> (r: Result<
        (SyncPlan, UserState),
        ContractError,
    >)
        requires
            self.wf(),
        ensures
            match r {
                Ok((p, u2)) => prepare(self@, self.config, u, now, open) == Ok::<
                    (Ledger, UserState),
                    ContractError,
                >((applied(self@, p), u2)) && p.keyed() && (!open ==> p.emission is None)
                    && ordered(p.base),
                Err(e) => prepare(self@, self.config, u, now, open) == Err::<
                    (Ledger, UserState),
                    ContractError,
                >(e),
            },
    {
        let cycle = match self.get_current_cycle(now) {
            Ok(c) => c,
            Err(e) => { return Err(e) },
        };
        let p = match self.plan_sync(cycle, open) {
            Ok(p) => p,
            Err(e) => { return Err(e) },
        };
        proof {
            lemma_sync_ordered(self@, cycle, open);
        }
        let u2 = match self.update_stats(&p, u) {
            Ok(v) => v,
            Err(e) => { return Err(e) },
        };
        Ok((p, u2))
    }

    /// Takes `amount` out of the total active stake of the ledger `l` that a
    /// plan without an opening leads to.
    fn plan_debit(&self, b: BaseState, amount: u128, Ghost(l): Ghost<Ledger>) -> (r: Result<
        (BaseState, Option<u128>),
        ContractError,
    >)
        requires
            l.base == b,
            l.summed == self@.summed,
        ensures
            match r {
                Ok((b2, w)) => debit_stake(l, amount) == Ok::<Ledger, ContractError>(
                    Ledger {
                        base: b2,
                        summed: match w {
                            Some(s) => l.summed.insert(b.current_cycle, s),
                            None => l.summed,
                        },
                        ..l
                    },
                ) && b2.last_started_cycle == b.last_started_cycle && b2.current_started_cycle
                    == b.current_started_cycle && b2.current_cycle == b.current_cycle
                    && b2.total_protocol_fees_reserved == b.total_protocol_fees_reserved
                    && b2.withdrawed_protocol_fees_reserved == b.withdrawed_protocol_fees_reserved,
                Err(e) => debit_stake(l, amount) == Err::<Ledger, ContractError>(e),
            },
    {
        let mut b2 = b;
        if b.last_started_cycle == b.current_started_cycle {
            match b.pending_stake_withdrawal.checked_add(amount) {
                Some(v) => {
                    b2.pending_stake_withdrawal = v;
                    Ok((b2, None))
                },
                None => Err(ContractError::InvariantViolation {  }),
            }
        } else {
            let s = read(&self.summed_cycle_stakes, b.current_cycle);
            if s < amount {
                Err(ContractError::InvariantViolation {  })
            } else {
                Ok((b2, Some(s - amount)))
            }
        }
    }

    /// Checks the funds paid for a burn against `batch_number` batches at
    /// `amount_per_batch` each.
    fn validate_burn_fund(symbol: Denom, paid: u128, batch_number: u64, amount_per_batch: u128) -> (r:
        Result<(), ContractError>)
        ensures
            match r {
                Ok(_) => fits(batch_number * amount_per_batch) && paid == batch_number
                    * amount_per_batch,
                Err(e) => if !fits(batch_number * amount_per_batch) {
                    e == ContractError::InvariantViolation {  }
                } else {
                    paid != batch_number * amount_per_batch && e == (ContractError::NotMatchedFund {
                        symbol,
                        amount: paid,
                        required: (batch_number * amount_per_batch) as u128,
                    })
                },
            },
    {
        let required = match (batch_number as u128).checked_mul(amount_per_batch) {
            Some(v) => v,
            None => { return Err(ContractError::InvariantViolation {  }) },
        };
        if paid != required {
            return Err(ContractError::NotMatchedFund { symbol, amount: paid, required });
        }
        Ok(())
    }

    /// Records `batch_number` batches of fee-generating activity by `user`,
    /// who paid `lunc_paid` and `ustc_paid`; `lunc_balance` is the engine's
    /// native balance with the payment. Yields the amount to send to the burn
    /// address.
    pub fn burn_batch(
        &mut self,
        user: &mut UserState,
        now: u64,
        batch_number: u64,
        lunc_paid: u128,
        ustc_paid: u128,
        lunc_balance: u128,
    ) -> (r: Result<u128, ContractError>)
        requires
            old(self).wf(),
        ensures
            final(self).wf(),
            final(self).config == old(self).config,
            match burn_batch_step(
                old(self)@,
                old(self).config,
                *old(user),
                now,
                batch_number,
                lunc_paid,
                ustc_paid,
                lunc_balance,
            ) {
                Ok((l, u, amount)) => r == Ok::<u128, ContractError>(amount) && final(self)@ == l
                    && *final(user) == u,
                Err(e) => r == Err::<u128, ContractError>(e) && final(self)@ == old(self)@
                    && *final(user) == *old(user),
            },
    {
        let cfg = &self.config;
        if batch_number > MAX_BATCH_NUMBER || batch_number < 1 {
            return Err(ContractError::NotValidBatchNumber {  });
        }
        if now < cfg.initial_timestamp {
            return Err(ContractError::NotStart { initial_timestamp: cfg.initial_timestamp });
        }
        match Self::validate_burn_fund(Denom::Lunc, lunc_paid, batch_number, cfg.lunc_batch_amount) {
            Ok(_) => {},
            Err(e) => { return Err(e) },
        }
        let burned = match lunc_balance.checked_mul(998) {
            Some(v) => v / 1000,
            None => { return Err(ContractError::InvariantViolation {  }) },
        };
        let per_batch = match cfg.ustc_batch_amount.checked_mul((MAX_BPS - 5 * batch_number) as u128) {
            Some(v) => v / (MAX_BPS as u128),
            None => { return Err(ContractError::InvariantViolation {  }) },
        };
        match Self::validate_burn_fund(Denom::Ustc, ustc_paid, batch_number, per_batch) {
            Ok(_) => {},
            Err(e) => { return Err(e) },
        }
        let (p, u2) = match self.prepare_plan(*user, now, true) {
            Ok(v) => v,
            Err(e) => { return Err(e) },
        };
        let ghost l2 = applied(self@, p);
        let b = p.base;
        let c = b.current_cycle;
        let fee: u128 = batch_number as u128 * per_batch;
        let total_batches = match b.total_number_of_batches.checked_add(batch_number) {
            Some(v) => v,
            None => { return Err(ContractError::InvariantViolation {  }) },
        };
        let cycle_batches = match read64(&self.cycle_total_batches_burned, c).checked_add(batch_number) {
            Some(v) => v,
            None => { return Err(ContractError::InvariantViolation {  }) },
        };
        let user_batches = match u2.acc_cycle_batches_burned.checked_add(batch_number) {
            Some(v) => v,
            None => { return Err(ContractError::InvariantViolation {  }) },
        };
        let reserved = match fee.checked_mul(self.config.protocol_fees_reserved_rate as u128) {
            Some(v) => v / (MAX_BPS as u128),
            None => { return Err(ContractError::InvariantViolation {  }) },
        };
        if reserved > fee {
            return Err(ContractError::InvariantViolation {  });
        }
        let accrued = match read(&self.cycle_accrued_fees, c).checked_add(fee - reserved) {
            Some(v) => v,
            None => { return Err(ContractError::InvariantViolation {  }) },
        };
        let total_reserved = match b.total_protocol_fees_reserved.checked_add(reserved) {
            Some(v) => v,
            None => { return Err(ContractError::InvariantViolation {  }) },
        };
        assert(per_batch == fee_per_batch(self.config, batch_number));
        assert(reserved == reserved_of(self.config, fee as int));
        self.commit(&p);
        self.base_state.total_number_of_batches = total_batches;
        self.base_state.total_protocol_fees_reserved = total_reserved;
        self.cycle_total_batches_burned.insert(c, cycle_batches);
        self.cycle_accrued_fees.insert(c, accrued);
        let mut u3 = u2;
        u3.last_active_cycle = c;
        u3.acc_cycle_batches_burned = user_batches;
        *user = u3;
        Ok(burned)
    }

    /// Claims the user's rewards net of matured stake. Yields the amount to
    /// mint to the recipient.
    pub fn claim_rewards(&mut self, user: &mut UserState, now: u64) -> (r: Result<u128, ContractError>)
        requires
            old(self).wf(),
        ensures
            final(self).wf(),
            final(self).config == old(self).config,
            match claim_rewards_step(old(self)@, old(self).config, *old(user), now) {
                Ok((l, u, amount)) => r == Ok::<u128, ContractError>(amount) && final(self)@ == l
                    && *final(user) == u,
                Err(e) => r == Err::<u128, ContractError>(e) && final(self)@ == old(self)@
                    && *final(user) == *old(user),
            },
    {
        let (p, u2) = match self.prepare_plan(*user, now, false) {
            Ok(v) => v,
            Err(e) => { return Err(e) },
        };
        if u2.acc_rewards < u2.acc_withdrawable_stake {
            return Err(ContractError::InvariantViolation {  });
        }
        if u2.acc_rewards == u2.acc_withdrawable_stake {
            return Err(ContractError::NoRewards {  });
        }
        let reward = u2.acc_rewards - u2.acc_withdrawable_stake;
        let (b3, w) = match self.plan_debit(p.base, reward, Ghost(applied(self@, p))) {
            Ok(v) => v,
            Err(e) => { return Err(e) },
        };
        self.commit(&p);
        self.base_state = b3;
        match w {
            Some(s) => {
                self.summed_cycle_stakes.insert(b3.current_cycle, s);
            },
            None => {},
        }
        let mut u3 = u2;
        u3.acc_rewards = u2.acc_withdrawable_stake;
        *user = u3;
        Ok(reward)
    }

    /// Claims the user's whole fee balance. Yields the amount to send.
    pub fn claim_fees(&mut self, user: &mut UserState, now: u64) -> (r: Result<u128, ContractError>)
        requires
            old(self).wf(),
        ensures
            final(self).wf(),
            final(self).config == old(self).config,
            match claim_fees_step(old(self)@, old(self).config, *old(user), now) {
                Ok((l, u, amount)) => r == Ok::<u128, ContractError>(amount) && final(self)@ == l
                    && *final(user) == u,
                Err(e) => r == Err::<u128, ContractError>(e) && final(self)@ == old(self)@
                    && *final(user) == *old(user),
            },
    {
        let (p, u2) = match self.prepare_plan(*user, now, false) {
            Ok(v) => v,
            Err(e) => { return Err(e) },
        };
        if u2.acc_accrued_fees == 0 {
            return Err(ContractError::NoFees {  });
        }
        self.commit(&p);
        let mut u3 = u2;
        u3.acc_accrued_fees = 0;
        *user = u3;
        Ok(u2.acc_accrued_fees)
    }

    /// Registers `amount` maturing at `target` in a slot of `u`.
    fn place_stake(u: UserState, target: u64, amount: u128) -> (r: Result<UserState, ContractError>)
        ensures
            r == place(u, target, amount),
    {
        let mut u = u;
        if target == u.acc_first_stake {
            match u.first_stake_amount.checked_add(amount) {
                Some(v) => {
                    u.first_stake_amount = v;
                    Ok(u)
                },
                None => Err(ContractError::InvariantViolation {  }),
            }
        } else if target == u.acc_second_stake {
            match u.second_stake_amount.checked_add(amount) {
                Some(v) => {
                    u.second_stake_amount = v;
                    Ok(u)
                },
                None => Err(ContractError::InvariantViolation {  }),
            }
        } else if u.acc_first_stake == 0 {
            u.acc_first_stake = target;
            u.first_stake_amount = amount;
            Ok(u)
        } else if u.acc_second_stake == 0 {
            u.acc_second_stake = target;
            u.second_stake_amount = amount;
            Ok(u)
        } else {
            Err(ContractError::StakeSlotsFull {  })
        }
    }

    /// Deposits `amount` of stake for the user. Yields the amount to pull
    /// from the user.
    pub fn stake(&mut self, user: &mut UserState, now: u64, amount: u128) -> (r: Result<u128, ContractError>)
        requires
            old(self).wf(),
        ensures
            final(self).wf(),
            final(self).config == old(self).config,
            match stake_step(old(self)@, old(self).config, *old(user), now, amount) {
                Ok((l, u, a)) => r == Ok::<u128, ContractError>(a) && final(self)@ == l
                    && *final(user) == u,
                Err(e) => r == Err::<u128, ContractError>(e) && final(self)@ == old(self)@
                    && *final(user) == *old(user),
            },
    {
        if amount == 0 {
            return Err(ContractError::AmountIsZero {  });
        }
        let (p, u2) = match self.prepare_plan(*user, now, false) {
            Ok(v) => v,
            Err(e) => { return Err(e) },
        };
        let b = p.base;
        let pending = match b.pending_stake.checked_add(amount) {
            Some(v) => v,
            None => { return Err(ContractError::InvariantViolation {  }) },
        };
        let target: u64 = if b.last_started_cycle == b.current_started_cycle {
            b.last_started_cycle + 1
        } else {
            if b.current_cycle == u64::MAX {
                return Err(ContractError::InvariantViolation {  });
            }
            b.current_cycle + 1
        };
        let u3 = match Self::place_stake(u2, target, amount) {
            Ok(v) => v,
            Err(e) => { return Err(e) },
        };
        self.commit(&p);
        self.base_state.pending_stake = pending;
        *user = u3;
        Ok(amount)
    }

    /// Withdraws `amount` of matured stake. Yields the amount to send back.
    pub fn unstake(&mut self, user: &mut UserState, now: u64, amount: u128) -> (r: Result<u128, ContractError>)
        requires
            old(self).wf(),
        ensures
            final(self).wf(),
            final(self).config == old(self).config,
            match unstake_step(old(self)@, old(self).config, *old(user), now, amount) {
                Ok((l, u, a)) => r == Ok::<u128, ContractError>(a) && final(self)@ == l
                    && *final(user) == u,
                Err(e) => r == Err::<u128, ContractError>(e) && final(self)@ == old(self)@
                    && *final(user) == *old(user),
            },
    {
        if amount == 0 {
            return Err(ContractError::AmountIsZero {  });
        }
        let (p, u2) = match self.prepare_plan(*user, now, false) {
            Ok(v) => v,
            Err(e) => { return Err(e) },
        };
        if amount > u2.acc_withdrawable_stake {
            return Err(ContractError::AmountGreaterThanWithdrawableStake {  });
        }
        let (b3, w) = match self.plan_debit(p.base, amount, Ghost(applied(self@, p))) {
            Ok(v) => v,
            Err(e) => { return Err(e) },
        };
        if u2.acc_rewards < amount {
            return Err(ContractError::InvariantViolation {  });
        }
        self.commit(&p);
        self.base_state = b3;
        match w {
            Some(s) => {
                self.summed_cycle_stakes.insert(b3.current_cycle, s);
            },
            None => {},
        }
        let mut u3 = u2;
        u3.acc_withdrawable_stake = u2.acc_withdrawable_stake - amount;
        u3.acc_rewards = u2.acc_rewards - amount;
        *user = u3;
        Ok(amount)
    }
}

} // verus!
