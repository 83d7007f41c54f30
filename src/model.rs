//! The engine as a state machine over `Ledger`: each step is a spec
//! function, and the executable operations are proved to follow them.
use crate::error::{ContractError, Denom};
use crate::state::{
    at, at64, BaseState, Config, Ledger, UserState, DECAY_DENOMINATOR, DECAY_NUMERATOR,
    MAX_BATCH_NUMBER, MAX_BPS, SCALING_FACTOR,
};
use vstd::prelude::*;

verus! {

/// The order of the window markers, and a reserve never withdrawn beyond
/// what was reserved.
pub open spec fn ordered(b: BaseState) -> bool {
    &&& b.last_started_cycle <= b.current_started_cycle
    &&& b.current_started_cycle <= b.current_cycle
    &&& b.withdrawed_protocol_fees_reserved <= b.total_protocol_fees_reserved
}

/// Every step of the sync keeps the order.
pub proof fn lemma_sync_ordered(l: Ledger, cycle: u64, open: bool)
    requires
        ordered(l.base),
    ensures
        sync(l, cycle, open) matches Ok(l2) ==> ordered(l2.base),
{
}

/// Whether an intermediate quantity fits the engine's amount type.
pub open spec fn fits(x: int) -> bool {
    0 <= x <= u128::MAX
}

/// The cycle that a time falls in: `[start + n * period, start + (n + 1) * period)`.
pub open spec fn cycle_at(cfg: Config, now: u64) -> int
    recommends
        now >= cfg.initial_timestamp,
        cfg.period_duration > 0,
{
    (now - cfg.initial_timestamp) / (cfg.period_duration as int)
}

/// The emission that follows `r` under the fixed decay ratio.
pub open spec fn decayed(r: u128) -> int {
    r * DECAY_NUMERATOR / (DECAY_DENOMINATOR as int)
}

/// The fees earned by `amount` of stake while the index went from `lo` to `hi`.
pub open spec fn fee_share(amount: u128, lo: u128, hi: u128) -> int {
    amount * (hi - lo) / (SCALING_FACTOR as int)
}

/// Cycle advancement: a ratchet on the current cycle.
pub open spec fn advance(l: Ledger, cycle: u64) -> Ledger {
    if cycle > l.base.current_cycle {
        Ledger { base: BaseState { current_cycle: cycle, ..l.base }, ..l }
    } else {
        l
    }
}

/// Moves the window markers once the current cycle has left the opened one.
pub open spec fn shift_window(b: BaseState) -> BaseState {
    if b.current_cycle != b.current_started_cycle {
        BaseState {
            previous_started_cycle: (b.last_started_cycle + 1) as u64,
            last_started_cycle: b.current_started_cycle,
            ..b
        }
    } else {
        b
    }
}

/// Fee-index closure: the index of a freshly closed window is written once,
/// at `last_started_cycle + 1`.
pub open spec fn close(l: Ledger) -> Result<Ledger, ContractError> {
    let b = shift_window(l.base);
    let key = (b.last_started_cycle + 1) as u64;
    if b.current_cycle > b.last_started_cycle && !l.index.contains_key(key) {
        let stakes = at(l.summed, b.last_started_cycle);
        let fees = at(l.accrued, b.last_started_cycle);
        let prev = at(l.index, b.previous_started_cycle);
        if stakes != 0 {
            let carried = fees + b.pending_fees;
            let delta = carried * (SCALING_FACTOR as int) / (stakes as int);
            if !fits(carried) || !fits(carried * SCALING_FACTOR) || !fits(prev + delta) {
                Err(ContractError::InvariantViolation {  })
            } else {
                Ok(
                    Ledger {
                        base: BaseState { pending_fees: 0, ..b },
                        index: l.index.insert(key, (prev + delta) as u128),
                        ..l
                    },
                )
            }
        } else if !fits(b.pending_fees + fees) {
            Err(ContractError::InvariantViolation {  })
        } else {
            Ok(
                Ledger {
                    base: BaseState { pending_fees: (b.pending_fees + fees) as u128, ..b },
                    index: l.index.insert(key, prev),
                    ..l
                },
            )
        }
    } else {
        Ok(Ledger { base: b, ..l })
    }
}

/// The total stake of a newly opened window: the last window's, the new
/// emission and the pending deposits, less the pending withdrawals.
pub open spec fn opened_stake(l: Ledger) -> int {
    at(l.summed, l.base.last_started_cycle) + decayed(l.base.current_cycle_reward)
        + l.base.pending_stake - l.base.pending_stake_withdrawal
}

/// Emission window opening, on the first operation that finds no emission
/// recorded for the current cycle.
pub open spec fn open_window(l: Ledger) -> Result<Ledger, ContractError> {
    let b = l.base;
    let c = b.current_cycle;
    if at(l.reward, c) == 0 {
        let emission = decayed(b.current_cycle_reward);
        let total = opened_stake(l);
        if !fits(b.current_cycle_reward * DECAY_NUMERATOR) || !fits(
            at(l.summed, b.last_started_cycle) + emission + b.pending_stake,
        ) || total < 0 {
            Err(ContractError::InvariantViolation {  })
        } else {
            Ok(
                Ledger {
                    base: BaseState {
                        last_cycle_reward: b.current_cycle_reward,
                        current_cycle_reward: emission as u128,
                        current_started_cycle: c,
                        pending_stake: 0,
                        pending_stake_withdrawal: 0,
                        ..b
                    },
                    reward: l.reward.insert(c, emission as u128),
                    summed: l.summed.insert(c, total as u128),
                    ..l
                },
            )
        }
    } else {
        Ok(l)
    }
}

/// Brings the global state to `cycle`: advancement, closure and, for an
/// operation that records activity, the opening of the emission window.
pub open spec fn sync(l: Ledger, cycle: u64, open: bool) -> Result<Ledger, ContractError> {
    let l1 = advance(l, cycle);
    if l1.base.current_cycle == u64::MAX {
        Err(ContractError::InvariantViolation {  })
    } else {
        match close(l1) {
            Err(e) => Err(e),
            Ok(l2) => if open {
                open_window(l2)
            } else {
                Ok(l2)
            },
        }
    }
}

/// Settlement, first step: the user's share of the emission of the last
/// cycle it was active in, once that cycle is over.
pub open spec fn settle_batches(l: Ledger, u: UserState) -> Result<UserState, ContractError> {
    if l.base.current_cycle > u.last_active_cycle && u.acc_cycle_batches_burned != 0 {
        let total = at64(l.batches, u.last_active_cycle);
        let minted = u.acc_cycle_batches_burned * at(l.reward, u.last_active_cycle);
        if total == 0 || !fits(minted) || !fits(u.acc_rewards + minted / (total as int)) {
            Err(ContractError::InvariantViolation {  })
        } else {
            Ok(
                UserState {
                    acc_rewards: (u.acc_rewards + minted / (total as int)) as u128,
                    acc_cycle_batches_burned: 0,
                    ..u
                },
            )
        }
    } else {
        Ok(u)
    }
}

/// Settlement, second step: fees on the reward balance since the user's
/// last fee checkpoint, which then moves to `last_started_cycle + 1`.
pub open spec fn settle_fees(l: Ledger, u: UserState) -> Result<UserState, ContractError> {
    let key = (l.base.last_started_cycle + 1) as u64;
    if l.base.current_cycle > l.base.last_started_cycle && u.last_fee_update_cycle != key {
        let hi = at(l.index, key);
        let lo = at(l.index, u.last_fee_update_cycle);
        if hi < lo || !fits(u.acc_rewards * (hi - lo)) || !fits(
            u.acc_accrued_fees + fee_share(u.acc_rewards, lo, hi),
        ) {
            Err(ContractError::InvariantViolation {  })
        } else {
            Ok(
                UserState {
                    acc_accrued_fees: (u.acc_accrued_fees + fee_share(u.acc_rewards, lo, hi)) as u128,
                    last_fee_update_cycle: key,
                    ..u
                },
            )
        }
    } else {
        Ok(u)
    }
}

/// Credits a matured stake of `amount` that targeted `cycle`: to the reward
/// and withdrawable balances, and, where the cycle lies before the current
/// fee window, with the fees it earned since.
pub open spec fn release(l: Ledger, u: UserState, cycle: u64, amount: u128) -> Result<
    UserState,
    ContractError,
> {
    let key = (l.base.last_started_cycle + 1) as u64;
    let hi = at(l.index, key);
    let lo = at(l.index, cycle);
    if !fits(u.acc_rewards + amount) || !fits(u.acc_withdrawable_stake + amount) {
        Err(ContractError::InvariantViolation {  })
    } else if key > cycle {
        if hi < lo || !fits(amount * (hi - lo)) || !fits(
            u.acc_accrued_fees + fee_share(amount, lo, hi),
        ) {
            Err(ContractError::InvariantViolation {  })
        } else {
            Ok(
                UserState {
                    acc_rewards: (u.acc_rewards + amount) as u128,
                    acc_withdrawable_stake: (u.acc_withdrawable_stake + amount) as u128,
                    acc_accrued_fees: (u.acc_accrued_fees + fee_share(amount, lo, hi)) as u128,
                    ..u
                },
            )
        }
    } else {
        Ok(
            UserState {
                acc_rewards: (u.acc_rewards + amount) as u128,
                acc_withdrawable_stake: (u.acc_withdrawable_stake + amount) as u128,
                ..u
            },
        )
    }
}

/// Settlement, third step: pending stake slots whose cycle is past mature,
/// first slot before second; a pending second slot moves down to the first.
pub open spec fn mature(l: Ledger, u: UserState) -> Result<UserState, ContractError> {
    let c = l.base.current_cycle;
    if u.acc_first_stake != 0 && c > u.acc_first_stake {
        match release(l, u, u.acc_first_stake, u.first_stake_amount) {
            Err(e) => Err(e),
            Ok(u1) => {
                let u2 = UserState { acc_first_stake: 0, first_stake_amount: 0, ..u1 };
                if u.acc_second_stake == 0 {
                    Ok(u2)
                } else if c > u.acc_second_stake {
                    match release(l, u2, u.acc_second_stake, u.second_stake_amount) {
                        Err(e) => Err(e),
                        Ok(u3) => Ok(
                            UserState { acc_second_stake: 0, second_stake_amount: 0, ..u3 },
                        ),
                    }
                } else {
                    Ok(
                        UserState {
                            acc_first_stake: u.acc_second_stake,
                            first_stake_amount: u.second_stake_amount,
                            acc_second_stake: 0,
                            second_stake_amount: 0,
                            ..u2
                        },
                    )
                }
            },
        }
    } else {
        Ok(u)
    }
}

/// Settlement of one user against a synced ledger.
pub open spec fn settle(l: Ledger, u: UserState) -> Result<UserState, ContractError> {
    match settle_batches(l, u) {
        Err(e) => Err(e),
        Ok(u1) => match settle_fees(l, u1) {
            Err(e) => Err(e),
            Ok(u2) => mature(l, u2),
        },
    }
}

/// What every user-facing operation does first: resolve the cycle, sync the
/// global state and settle the acting user.
pub open spec fn prepare(l: Ledger, cfg: Config, u: UserState, now: u64, open: bool) -> Result<
    (Ledger, UserState),
    ContractError,
> {
    if now < cfg.initial_timestamp {
        Err(ContractError::NotStart { initial_timestamp: cfg.initial_timestamp })
    } else {
        match sync(l, cycle_at(cfg, now) as u64, open) {
            Err(e) => Err(e),
            Ok(l2) => match settle(l2, u) {
                Err(e) => Err(e),
                Ok(u2) => Ok((l2, u2)),
            },
        }
    }
}

pub open spec fn fits64(x: int) -> bool {
    0 <= x <= u64::MAX
}

/// The protocol fee of one batch of a burn of `batch` batches: the batch
/// price less five basis points per batch.
pub open spec fn fee_per_batch(cfg: Config, batch: u64) -> int {
    cfg.ustc_batch_amount * (MAX_BPS - 5 * batch) / (MAX_BPS as int)
}

/// The slice of a protocol fee kept in the reserve.
pub open spec fn reserved_of(cfg: Config, fee: int) -> int {
    fee * cfg.protocol_fees_reserved_rate / (MAX_BPS as int)
}

/// What leaves the engine's native balance to the burn address.
pub open spec fn burned_of(balance: u128) -> int {
    balance * 998 / 1000
}

/// The checks a burn makes on its inputs before it touches any state.
pub open spec fn burn_checks(cfg: Config, now: u64, batch: u64, lunc_paid: u128, ustc_paid: u128, lunc_balance: u128) -> Result<(), ContractError> {
    let lunc_required = batch * cfg.lunc_batch_amount;
    let ustc_required = batch * fee_per_batch(cfg, batch);
    if batch > MAX_BATCH_NUMBER || batch < 1 {
        Err(ContractError::NotValidBatchNumber {  })
    } else if now < cfg.initial_timestamp {
        Err(ContractError::NotStart { initial_timestamp: cfg.initial_timestamp })
    } else if !fits(lunc_required) {
        Err(ContractError::InvariantViolation {  })
    } else if lunc_paid != lunc_required {
        Err(ContractError::NotMatchedFund { symbol: Denom::Lunc, amount: lunc_paid, required: lunc_required as u128 })
    } else if !fits(lunc_balance * 998) || !fits(cfg.ustc_batch_amount * (MAX_BPS - 5 * batch)) || !fits(ustc_required) {
        Err(ContractError::InvariantViolation {  })
    } else if ustc_paid != ustc_required {
        Err(ContractError::NotMatchedFund { symbol: Denom::Ustc, amount: ustc_paid, required: ustc_required as u128 })
    } else {
        Ok(())
    }
}

/// The record of `batch` batches by a settled user in the current cycle,
/// with their protocol fee split between the reserve and the cycle's fees.
pub open spec fn record(l: Ledger, cfg: Config, u: UserState, batch: u64) -> Result<(Ledger, UserState), ContractError> {
    let b = l.base;
    let c = b.current_cycle;
    let fee = batch * fee_per_batch(cfg, batch);
    let reserved = reserved_of(cfg, fee);
    if !fits64(b.total_number_of_batches + batch) || !fits64(at64(l.batches, c) + batch)
        || !fits64(u.acc_cycle_batches_burned + batch) || !fits(fee * cfg.protocol_fees_reserved_rate)
        || reserved > fee || !fits(at(l.accrued, c) + (fee - reserved))
        || !fits(b.total_protocol_fees_reserved + reserved) {
        Err(ContractError::InvariantViolation {  })
    } else {
        Ok((
            Ledger {
                base: BaseState {
                    total_number_of_batches: (b.total_number_of_batches + batch) as u64,
                    total_protocol_fees_reserved: (b.total_protocol_fees_reserved + reserved) as u128,
                    ..b
                },
                batches: l.batches.insert(c, (at64(l.batches, c) + batch) as u64),
                accrued: l.accrued.insert(c, (at(l.accrued, c) + (fee - reserved)) as u128),
                ..l
            },
            UserState {
                last_active_cycle: c,
                acc_cycle_batches_burned: (u.acc_cycle_batches_burned + batch) as u64,
                ..u
            },
        ))
    }
}

/// A burn: the input checks, the sync with the emission window opened, the
/// settlement of the burner and the record. Yields the amount to burn.
pub open spec fn burn_batch_step(l: Ledger, cfg: Config, u: UserState, now: u64, batch: u64, lunc_paid: u128, ustc_paid: u128, lunc_balance: u128) -> Result<(Ledger, UserState, u128), ContractError> {
    match burn_checks(cfg, now, batch, lunc_paid, ustc_paid, lunc_balance) {
        Err(e) => Err(e),
        Ok(_) => match prepare(l, cfg, u, now, true) {
            Err(e) => Err(e),
            Ok((l2, u2)) => match record(l2, cfg, u2, batch) {
                Err(e) => Err(e),
                Ok((l3, u3)) => Ok((l3, u3, burned_of(lunc_balance) as u128)),
            },
        },
    }
}

/// Takes `amount` out of the total active stake: deferred to the next
/// opening while the window is still open, else from the current cycle.
pub open spec fn debit_stake(l: Ledger, amount: u128) -> Result<Ledger, ContractError> {
    let b = l.base;
    if b.last_started_cycle == b.current_started_cycle {
        if !fits(b.pending_stake_withdrawal + amount) {
            Err(ContractError::InvariantViolation {  })
        } else {
            Ok(Ledger { base: BaseState { pending_stake_withdrawal: (b.pending_stake_withdrawal + amount) as u128, ..b }, ..l })
        }
    } else if at(l.summed, b.current_cycle) < amount {
        Err(ContractError::InvariantViolation {  })
    } else {
        Ok(Ledger { summed: l.summed.insert(b.current_cycle, (at(l.summed, b.current_cycle) - amount) as u128), ..l })
    }
}

/// A reward claim: the reward balance net of matured stake.
pub open spec fn claim_rewards_step(l: Ledger, cfg: Config, u: UserState, now: u64) -> Result<(Ledger, UserState, u128), ContractError> {
    match prepare(l, cfg, u, now, false) {
        Err(e) => Err(e),
        Ok((l2, u2)) => if u2.acc_rewards < u2.acc_withdrawable_stake {
            Err(ContractError::InvariantViolation {  })
        } else if u2.acc_rewards == u2.acc_withdrawable_stake {
            Err(ContractError::NoRewards {  })
        } else {
            let reward = (u2.acc_rewards - u2.acc_withdrawable_stake) as u128;
            match debit_stake(l2, reward) {
                Err(e) => Err(e),
                Ok(l3) => Ok((l3, UserState { acc_rewards: u2.acc_withdrawable_stake, ..u2 }, reward)),
            }
        },
    }
}

/// A fee claim: the whole fee balance.
pub open spec fn claim_fees_step(l: Ledger, cfg: Config, u: UserState, now: u64) -> Result<(Ledger, UserState, u128), ContractError> {
    match prepare(l, cfg, u, now, false) {
        Err(e) => Err(e),
        Ok((l2, u2)) => if u2.acc_accrued_fees == 0 {
            Err(ContractError::NoFees {  })
        } else {
            Ok((l2, UserState { acc_accrued_fees: 0, ..u2 }, u2.acc_accrued_fees))
        },
    }
}

/// The cycle a deposit made now matures at.
pub open spec fn stake_target(b: BaseState) -> int {
    if b.last_started_cycle == b.current_started_cycle {
        b.last_started_cycle + 1
    } else {
        b.current_cycle + 1
    }
}

/// Registers `amount` maturing at `target` in a slot of the user: the slot
/// already at that cycle, else the first empty one.
pub open spec fn place(u: UserState, target: u64, amount: u128) -> Result<UserState, ContractError> {
    if target == u.acc_first_stake {
        if !fits(u.first_stake_amount + amount) {
            Err(ContractError::InvariantViolation {  })
        } else {
            Ok(UserState { first_stake_amount: (u.first_stake_amount + amount) as u128, ..u })
        }
    } else if target == u.acc_second_stake {
        if !fits(u.second_stake_amount + amount) {
            Err(ContractError::InvariantViolation {  })
        } else {
            Ok(UserState { second_stake_amount: (u.second_stake_amount + amount) as u128, ..u })
        }
    } else if u.acc_first_stake == 0 {
        Ok(UserState { acc_first_stake: target, first_stake_amount: amount, ..u })
    } else if u.acc_second_stake == 0 {
        Ok(UserState { acc_second_stake: target, second_stake_amount: amount, ..u })
    } else {
        Err(ContractError::StakeSlotsFull {  })
    }
}

/// A deposit of stake.
pub open spec fn stake_step(l: Ledger, cfg: Config, u: UserState, now: u64, amount: u128) -> Result<(Ledger, UserState, u128), ContractError> {
    if amount == 0 {
        Err(ContractError::AmountIsZero {  })
    } else {
        match prepare(l, cfg, u, now, false) {
            Err(e) => Err(e),
            Ok((l2, u2)) => {
                let b = l2.base;
                if !fits(b.pending_stake + amount) || !fits64(stake_target(b)) {
                    Err(ContractError::InvariantViolation {  })
                } else {
                    match place(u2, stake_target(b) as u64, amount) {
                        Err(e) => Err(e),
                        Ok(u3) => Ok((
                            Ledger { base: BaseState { pending_stake: (b.pending_stake + amount) as u128, ..b }, ..l2 },
                            u3,
                            amount,
                        )),
                    }
                }
            },
        }
    }
}

/// A withdrawal of matured stake.
pub open spec fn unstake_step(l: Ledger, cfg: Config, u: UserState, now: u64, amount: u128) -> Result<(Ledger, UserState, u128), ContractError> {
    if amount == 0 {
        Err(ContractError::AmountIsZero {  })
    } else {
        match prepare(l, cfg, u, now, false) {
            Err(e) => Err(e),
            Ok((l2, u2)) => if amount > u2.acc_withdrawable_stake {
                Err(ContractError::AmountGreaterThanWithdrawableStake {  })
            } else {
                match debit_stake(l2, amount) {
                    Err(e) => Err(e),
                    Ok(l3) => if u2.acc_rewards < amount {
                        Err(ContractError::InvariantViolation {  })
                    } else {
                        Ok((
                            l3,
                            UserState {
                                acc_withdrawable_stake: (u2.acc_withdrawable_stake - amount) as u128,
                                acc_rewards: (u2.acc_rewards - amount) as u128,
                                ..u2
                            },
                            amount,
                        ))
                    },
                }
            },
        }
    }
}

} // verus!
