//! Properties of the engine's steps, proved over the model.
use crate::error::ContractError;
use crate::model::{
    advance, burn_batch_step, claim_fees_step, claim_rewards_step, close, open_window, ordered,
    fee_share, prepare, record, settle, stake_step, sync, unstake_step,
};
use crate::state::{at, BaseState, Config, Ledger, UserState, SCALING_FACTOR};
use vstd::prelude::*;

verus! {

/// A user-facing operation with its inputs.
pub ghost enum Action {
    BurnBatch { batch_number: u64, lunc_paid: u128, ustc_paid: u128, lunc_balance: u128 },
    ClaimRewards,
    ClaimFees,
    Stake { amount: u128 },
    Unstake { amount: u128 },
}

/// The step of a user-facing operation.
pub open spec fn step(l: Ledger, cfg: Config, u: UserState, now: u64, a: Action) -> Result<
    (Ledger, UserState, u128),
    ContractError,
> {
    match a {
        Action::BurnBatch { batch_number, lunc_paid, ustc_paid, lunc_balance } => burn_batch_step(
            l,
            cfg,
            u,
            now,
            batch_number,
            lunc_paid,
            ustc_paid,
            lunc_balance,
        ),
        Action::ClaimRewards => claim_rewards_step(l, cfg, u, now),
        Action::ClaimFees => claim_fees_step(l, cfg, u, now),
        Action::Stake { amount } => stake_step(l, cfg, u, now, amount),
        Action::Unstake { amount } => unstake_step(l, cfg, u, now, amount),
    }
}

/// The claim of the protocol reserve: all of it is marked withdrawn.
pub open spec fn claim_reserved_step(l: Ledger) -> (Ledger, u128) {
    (
        Ledger {
            base: BaseState {
                withdrawed_protocol_fees_reserved: l.base.total_protocol_fees_reserved,
                ..l.base
            },
            ..l
        },
        (l.base.total_protocol_fees_reserved - l.base.withdrawed_protocol_fees_reserved) as u128,
    )
}

/// What never goes down: the current cycle, the reserve and its withdrawn
/// part, and the fee index of every cycle.
pub open spec fn grows(l: Ledger, l2: Ledger) -> bool {
    &&& l2.base.current_cycle >= l.base.current_cycle
    &&& l2.base.total_protocol_fees_reserved >= l.base.total_protocol_fees_reserved
    &&& l2.base.withdrawed_protocol_fees_reserved >= l.base.withdrawed_protocol_fees_reserved
    &&& forall|k: u64| #[trigger] at(l2.index, k) >= at(l.index, k)
}

/// A fee index once written is never written again.
pub open spec fn index_kept(l: Ledger, l2: Ledger) -> bool {
    forall|k: u64|
        #[trigger] l.index.contains_key(k) ==> l2.index.contains_key(k) && l2.index[k]
            == l.index[k]
}

proof fn lemma_sync_grows(l: Ledger, cycle: u64, open: bool)
    ensures
        sync(l, cycle, open) matches Ok(l2) ==> grows(l, l2) && index_kept(l, l2)
            && l2.base.total_protocol_fees_reserved == l.base.total_protocol_fees_reserved
            && l2.base.withdrawed_protocol_fees_reserved
            == l.base.withdrawed_protocol_fees_reserved && l2.accrued == l.accrued,
{
    let l1 = advance(l, cycle);
    if let Ok(l2) = close(l1) {
        assert forall|k: u64| #[trigger] at(l2.index, k) >= at(l.index, k) by {}
        if open {
            if let Ok(l3) = open_window(l2) {
                assert forall|k: u64| #[trigger] at(l3.index, k) >= at(l.index, k) by {}
            }
        }
    }
}

proof fn lemma_prepare_grows(l: Ledger, cfg: Config, u: UserState, now: u64, open: bool)
    ensures
        prepare(l, cfg, u, now, open) matches Ok((l2, _)) ==> grows(l, l2) && index_kept(l, l2)
            && l2.base.total_protocol_fees_reserved == l.base.total_protocol_fees_reserved
            && l2.base.withdrawed_protocol_fees_reserved
            == l.base.withdrawed_protocol_fees_reserved && l2.accrued == l.accrued,
{
    if now >= cfg.initial_timestamp {
        lemma_sync_grows(l, crate::model::cycle_at(cfg, now) as u64, open);
    }
}

/// Monotonicity: no user-facing operation lowers the current cycle, the
/// reserve, its withdrawn part or any fee index, and none rewrites a fee
/// index already written.
pub proof fn law_monotone(l: Ledger, cfg: Config, u: UserState, now: u64, a: Action)
    ensures
        step(l, cfg, u, now, a) matches Ok((l2, _, _)) ==> grows(l, l2) && index_kept(l, l2),
{
    match a {
        Action::BurnBatch { batch_number, lunc_paid, ustc_paid, lunc_balance } => {
            lemma_prepare_grows(l, cfg, u, now, true);
            if let Ok((lp, up)) = prepare(l, cfg, u, now, true) {
                if let Ok((l3, _)) = record(lp, cfg, up, batch_number) {
                    assert forall|k: u64| #[trigger] at(l3.index, k) >= at(l.index, k) by {
                        assert(at(lp.index, k) >= at(l.index, k));
                    }
                }
            }
        },
        Action::ClaimRewards => {
            lemma_prepare_grows(l, cfg, u, now, false);
        },
        Action::ClaimFees => {
            lemma_prepare_grows(l, cfg, u, now, false);
        },
        Action::Stake { amount } => {
            lemma_prepare_grows(l, cfg, u, now, false);
        },
        Action::Unstake { amount } => {
            lemma_prepare_grows(l, cfg, u, now, false);
        },
    }
}

/// Monotonicity of the reserve claim, on an ordered global state.
pub proof fn law_reserve_claim_monotone(l: Ledger)
    requires
        ordered(l.base),
    ensures
        grows(l, claim_reserved_step(l).0),
        index_kept(l, claim_reserved_step(l).0),
        ordered(claim_reserved_step(l).0.base),
{
}

/// A fee index is written exactly once: after any sync that has closed the
/// last window, its index is written, and later syncs never rewrite it.
pub proof fn law_index_closed_once(l: Ledger, cycle: u64, open: bool)
    ensures
        sync(l, cycle, open) matches Ok(l2) ==> index_kept(l, l2) && (l2.base.current_cycle
            > l2.base.last_started_cycle ==> l2.index.contains_key(
            (l2.base.last_started_cycle + 1) as u64,
        )),
{
    lemma_sync_grows(l, cycle, open);
}

/// Settling an already settled user against the same ledger changes nothing.
proof fn lemma_settle_settled(l: Ledger, u: UserState)
    ensures
        settle(l, u) matches Ok(u2) ==> settle(l, u2) == Ok::<UserState, ContractError>(u2),
{
}

/// A second sync to the same cycle leaves what settlement reads as it was.
proof fn lemma_sync_again(l: Ledger, cycle: u64, open: bool)
    ensures
        sync(l, cycle, open) matches Ok(l2) ==> (sync(l2, cycle, open) matches Ok(l3) && l3.base.current_cycle
            == l2.base.current_cycle && l3.base.last_started_cycle == l2.base.last_started_cycle
            && l3.index == l2.index && l3.reward == l2.reward && l3.batches == l2.batches),
{
    if let Ok(l2) = sync(l, cycle, open) {
        let l1 = advance(l, cycle);
        let lc = close(l1)->Ok_0;
        assert(advance(l2, cycle) == l2);
        let m = close(l2)->Ok_0;
        if open {
            if at(m.reward, m.base.current_cycle) == 0 {
                assert(l2.reward.contains_key(l2.base.current_cycle));
                assert(open_window(m)->Ok_0.reward =~= l2.reward);
            }
        }
    }
}

/// Idempotent settlement: preparing an operation a second time, in the same
/// cycle, on what the first left, changes none of the user's balances.
pub proof fn law_settlement_idempotent(l: Ledger, cfg: Config, u: UserState, now: u64, open: bool)
    ensures
        prepare(l, cfg, u, now, open) matches Ok((l2, u2)) ==> (prepare(l2, cfg, u2, now, open) matches Ok(
            (_, u3),
        ) && u3 == u2),
{
    if let Ok((l2, u2)) = prepare(l, cfg, u, now, open) {
        let c = crate::model::cycle_at(cfg, now) as u64;
        lemma_sync_again(l, c, open);
        lemma_settle_settled(l2, u);
        let l3 = sync(l2, c, open)->Ok_0;
        assert(settle(l3, u2) == settle(l2, u2));
    }
}

/// The protocol fee paid for a burn is split exactly between the reserve and
/// the fees of the current cycle.
pub proof fn law_burn_fee_split(
    l: Ledger,
    cfg: Config,
    u: UserState,
    now: u64,
    batch_number: u64,
    lunc_paid: u128,
    ustc_paid: u128,
    lunc_balance: u128,
)
    ensures
        burn_batch_step(l, cfg, u, now, batch_number, lunc_paid, ustc_paid, lunc_balance) matches Ok(
            (l2, _, _),
        ) ==> at(l2.accrued, l2.base.current_cycle) + l2.base.total_protocol_fees_reserved == at(
            l.accrued,
            l2.base.current_cycle,
        ) + l.base.total_protocol_fees_reserved + ustc_paid,
{
    lemma_prepare_grows(l, cfg, u, now, true);
}

/// A claim pays out exactly what it takes from the settled balance.
pub proof fn law_claims_conserve(l: Ledger, cfg: Config, u: UserState, now: u64, amount: u128)
    ensures
        claim_fees_step(l, cfg, u, now) matches Ok((_, u3, a)) ==> (prepare(l, cfg, u, now, false) matches Ok(
            (_, us),
        ) && a + u3.acc_accrued_fees == us.acc_accrued_fees),
        claim_rewards_step(l, cfg, u, now) matches Ok((_, u3, a)) ==> (prepare(l, cfg, u, now, false) matches Ok(
            (_, us),
        ) && a + u3.acc_rewards == us.acc_rewards),
        unstake_step(l, cfg, u, now, amount) matches Ok((_, u3, a)) ==> (prepare(l, cfg, u, now, false) matches Ok(
            (_, us),
        ) && a + u3.acc_withdrawable_stake == us.acc_withdrawable_stake),
{
}

/// The sum of a sequence of amounts.
pub open spec fn total_of(xs: Seq<u128>) -> int
    decreases xs.len(),
{
    if xs.len() == 0 {
        0
    } else {
        total_of(xs.drop_last()) + xs.last()
    }
}

/// What the settlement credits, from one cycle's emission `reward`, to users
/// with the batch counts `bs` out of the cycle's `total`.
pub open spec fn batch_credits(bs: Seq<u128>, reward: u128, total: u128) -> int
    decreases bs.len(),
{
    if bs.len() == 0 {
        0
    } else {
        batch_credits(bs.drop_last(), reward, total) + (bs.last() * reward) / (total as int)
    }
}

/// What the settlement credits, from a window whose index grew by `delta`,
/// to balances `rs`.
pub open spec fn fee_credits(rs: Seq<u128>, delta: u128) -> int
    decreases rs.len(),
{
    if rs.len() == 0 {
        0
    } else {
        fee_credits(rs.drop_last(), delta) + fee_share(rs.last(), 0, delta)
    }
}

proof fn lemma_batch_credits(bs: Seq<u128>, reward: u128, total: u128)
    requires
        total > 0,
    ensures
        batch_credits(bs, reward, total) * total <= total_of(bs) * reward,
    decreases bs.len(),
{
    if bs.len() > 0 {
        lemma_batch_credits(bs.drop_last(), reward, total);
        let x = bs.last() * reward;
        let q = x / (total as int);
        assert(q * total <= x) by (nonlinear_arith)
            requires
                q == x / (total as int),
                total > 0,
                x >= 0,
        {
        }
        let a = batch_credits(bs.drop_last(), reward, total);
        let t = total_of(bs.drop_last());
        assert((a + q) * total <= (t + bs.last()) * reward) by (nonlinear_arith)
            requires
                a * total <= t * reward,
                q * total <= x,
                x == bs.last() * reward,
        {
        }
    }
}

proof fn lemma_fee_credits(rs: Seq<u128>, delta: u128)
    ensures
        fee_credits(rs, delta) * SCALING_FACTOR <= total_of(rs) * delta,
    decreases rs.len(),
{
    if rs.len() > 0 {
        lemma_fee_credits(rs.drop_last(), delta);
        let x = rs.last() * (delta - 0);
        let q = fee_share(rs.last(), 0, delta);
        let k = SCALING_FACTOR as int;
        assert(q * k <= x) by (nonlinear_arith)
            requires
                q == x / k,
                k > 0,
                x >= 0,
        {
        }
        let a = fee_credits(rs.drop_last(), delta);
        let t = total_of(rs.drop_last());
        assert((a + q) * k <= (t + rs.last()) * delta) by (nonlinear_arith)
            requires
                a * k <= t * delta,
                q * k <= x,
                x == rs.last() * delta,
        {
        }
    }
}

/// Conservation of the emission: users whose batch counts add up to no
/// more than a cycle's recorded total are credited, together, no more than
/// the cycle's emission.
pub proof fn law_emission_never_overpaid(bs: Seq<u128>, reward: u128, total: u128)
    requires
        total > 0,
        total_of(bs) <= total,
    ensures
        batch_credits(bs, reward, total) <= reward,
{
    lemma_batch_credits(bs, reward, total);
    let c = batch_credits(bs, reward, total);
    assert(c <= reward) by (nonlinear_arith)
        requires
            c * total <= total_of(bs) * reward,
            total_of(bs) <= total,
            total > 0,
            reward >= 0,
    {
    }
}

/// Conservation of the fees: balances that add up to no more than a closed
/// window's total stake are credited, together, no more than the fees the
/// window's index delta was computed from.
pub proof fn law_fees_never_overpaid(rs: Seq<u128>, fees: u128, stakes: u128)
    requires
        stakes > 0,
        total_of(rs) <= stakes,
        fees * SCALING_FACTOR <= u128::MAX,
    ensures
        fee_credits(rs, (fees * SCALING_FACTOR / (stakes as int)) as u128) <= fees,
{
    let k = SCALING_FACTOR as int;
    let d = fees * k / (stakes as int);
    assert(0 <= d <= fees * k && d * stakes <= fees * k) by (nonlinear_arith)
        requires
            d == fees * k / (stakes as int),
            stakes > 0,
            fees >= 0,
            k > 0,
    {
    }
    lemma_fee_credits(rs, d as u128);
    let c = fee_credits(rs, d as u128);
    assert(c <= fees) by (nonlinear_arith)
        requires
            c * k <= total_of(rs) * d,
            total_of(rs) <= stakes,
            d * stakes <= fees * k,
            d >= 0,
            k > 0,
            stakes > 0,
    {
    }
}

} // verus!
