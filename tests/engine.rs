use dflunc::error::{ContractError, Denom};
use dflunc::msg::{InstantiateMsg, MigrateMsg};
use dflunc::query::query_user_info;
use dflunc::state::{DFCState, UserState};

const T0: u64 = 1_000_000;
const LUNC_PER_BATCH: u128 = 1_000;
const USTC_PER_BATCH: u128 = 1_000_000;

fn owner() -> Vec<u8> {
    vec![1, 2, 3]
}

fn claimer() -> Vec<u8> {
    vec![9, 9]
}

fn engine() -> DFCState {
    DFCState::instantiate(
        &owner(),
        InstantiateMsg {
            dfc_address: vec![7],
            lunc_batch_amount: LUNC_PER_BATCH,
            ustc_batch_amount: USTC_PER_BATCH,
            initial_timestamp: T0,
            ustc_claimer_address: claimer(),
            protocol_fees_reserved_rate: 10_000,
            burned_address: vec![0],
            period_duration: 100,
        },
    )
}

fn ustc_for(batch: u64) -> u128 {
    let per = USTC_PER_BATCH * (100_000 - 5 * batch as u128) / 100_000;
    per * batch as u128
}

fn burn(s: &mut DFCState, u: &mut UserState, now: u64, batch: u64) -> Result<u128, ContractError> {
    s.burn_batch(u, now, batch, LUNC_PER_BATCH * batch as u128, ustc_for(batch), 0)
}

#[test]
fn cycle_resolution() {
    let s = engine();
    assert_eq!(s.get_current_cycle(T0), Ok(0));
    assert_eq!(s.get_current_cycle(T0 + 99), Ok(0));
    assert_eq!(s.get_current_cycle(T0 + 100), Ok(1));
    assert_eq!(s.get_current_cycle(T0 + 250), Ok(2));
    assert_eq!(s.get_current_cycle(T0 - 1), Err(ContractError::NotStart { initial_timestamp: T0 }));
}

#[test]
fn fresh_engine_seeds_cycle_zero() {
    let s = engine();
    let info = s.query_cycle_info(0);
    assert_eq!(info.reward_per_cycle, 100_000_000_000);
    assert_eq!(info.summed_cycle_stakes, 100_000_000_000);
    assert_eq!(s.base_state.current_cycle_reward, 100_000_000_000);
    assert_eq!(s.base_state.current_started_cycle, 0);
    assert_eq!(s.base_state.last_started_cycle, 0);
    assert_eq!(s.query_config().owner, owner());
    assert_eq!(s.migrate(MigrateMsg {}), Ok(()));
}

#[test]
fn burn_in_cycle_zero_counts_batches() {
    let mut s = engine();
    let mut a = UserState::new();
    assert_eq!(burn(&mut s, &mut a, T0 + 50, 4), Ok(0));
    assert_eq!(s.base_state.current_cycle, 0);
    assert_eq!(s.base_state.total_number_of_batches, 4);
    assert_eq!(s.query_cycle_info(0).cycle_total_batches_burned, 4);
    assert_eq!(a.acc_cycle_batches_burned, 4);
    assert_eq!(a.last_active_cycle, 0);
}

#[test]
fn burn_before_start_fails() {
    let mut s = engine();
    let mut a = UserState::new();
    assert_eq!(burn(&mut s, &mut a, T0 - 1, 4), Err(ContractError::NotStart { initial_timestamp: T0 }));
    assert_eq!(s.base_state.total_number_of_batches, 0);
    assert_eq!(a, UserState::new());
}

#[test]
fn burn_splits_protocol_fee() {
    let mut s = engine();
    let mut a = UserState::new();
    assert_eq!(ustc_for(4), 3_999_200);
    assert_eq!(burn(&mut s, &mut a, T0 + 10, 4), Ok(0));
    assert_eq!(s.base_state.total_protocol_fees_reserved, 399_920);
    assert_eq!(s.query_cycle_info(0).cycle_accrued_fees, 3_599_280);
}

#[test]
fn burn_sends_balance_less_two_per_mille() {
    let mut s = engine();
    let mut a = UserState::new();
    let r = s.burn_batch(&mut a, T0 + 10, 1, LUNC_PER_BATCH, ustc_for(1), 5_000);
    assert_eq!(r, Ok(4_990));
}

#[test]
fn burn_rejects_batch_numbers_out_of_range() {
    let mut s = engine();
    let mut a = UserState::new();
    assert_eq!(s.burn_batch(&mut a, T0 + 10, 0, 0, 0, 0), Err(ContractError::NotValidBatchNumber {}));
    assert_eq!(burn(&mut s, &mut a, T0 + 10, 10_001), Err(ContractError::NotValidBatchNumber {}));
    assert_eq!(burn(&mut s, &mut a, T0 + 10, 10_000), Ok(0));
}

#[test]
fn burn_rejects_unmatched_funds() {
    let mut s = engine();
    let mut a = UserState::new();
    assert_eq!(
        s.burn_batch(&mut a, T0 + 10, 4, 3_999, ustc_for(4), 0),
        Err(ContractError::NotMatchedFund { symbol: Denom::Lunc, amount: 3_999, required: 4_000 })
    );
    assert_eq!(
        s.burn_batch(&mut a, T0 + 10, 4, 4_000, 4_000_000, 0),
        Err(ContractError::NotMatchedFund { symbol: Denom::Ustc, amount: 4_000_000, required: 3_999_200 })
    );
    assert_eq!(s.base_state.total_number_of_batches, 0);
}

#[test]
fn two_users_share_emission() {
    let mut s = engine();
    let mut a = UserState::new();
    let mut b = UserState::new();
    assert_eq!(burn(&mut s, &mut a, T0 + 10, 3), Ok(0));
    assert_eq!(burn(&mut s, &mut b, T0 + 20, 7), Ok(0));
    assert_eq!(s.query_cycle_info(0).cycle_total_batches_burned, 10);
    s.reward_per_cycle.insert(0, 1_000);
    assert_eq!(s.claim_rewards(&mut a, T0 + 150), Ok(300));
    assert_eq!(s.claim_rewards(&mut b, T0 + 150), Ok(700));
    assert_eq!(s.base_state.pending_stake_withdrawal, 1_000);
}

#[test]
fn emission_decays_when_window_opens() {
    let mut s = engine();
    let mut a = UserState::new();
    assert_eq!(burn(&mut s, &mut a, T0 + 110, 1), Ok(0));
    let info = s.query_cycle_info(1);
    assert_eq!(info.reward_per_cycle, 99_800_399_201);
    assert_eq!(info.summed_cycle_stakes, 199_800_399_201);
    assert_eq!(s.base_state.current_cycle_reward, 99_800_399_201);
    assert_eq!(s.base_state.last_cycle_reward, 100_000_000_000);
    assert_eq!(s.base_state.current_started_cycle, 1);
    assert_eq!(s.query_current_cycle_rewards().map(|r| r.amount), Ok(99_800_399_201));
}

#[test]
fn stake_matures_two_cycles_later() {
    let mut s = engine();
    let mut a = UserState::new();
    assert_eq!(s.stake(&mut a, T0 + 10, 5_000), Ok(5_000));
    assert_eq!(a.acc_first_stake, 1);
    assert_eq!(a.first_stake_amount, 5_000);
    assert_eq!(s.base_state.pending_stake, 5_000);
    assert_eq!(query_user_info(&a, 1).acc_stake_cycle, 5_000);
    assert_eq!(query_user_info(&a, 2).acc_stake_cycle, 0);
    assert_eq!(s.query_acc_withdrawable_stake(&a, T0 + 110).map(|r| r.amount), Ok(0));
    assert_eq!(s.query_acc_withdrawable_stake(&a, T0 + 210).map(|r| r.amount), Ok(5_000));
    assert_eq!(s.unstake(&mut a, T0 + 210, 5_000), Ok(5_000));
    assert_eq!(a.acc_withdrawable_stake, 0);
    assert_eq!(a.acc_first_stake, 0);
}

#[test]
fn claim_fees_with_nothing_fails() {
    let mut s = engine();
    let mut a = UserState::new();
    let before = s.base_state;
    assert_eq!(s.claim_fees(&mut a, T0 + 210), Err(ContractError::NoFees {}));
    assert_eq!(s.base_state, before);
    assert_eq!(a, UserState::new());
    assert_eq!(s.query_cycle_info(1).cycle_fees_per_stake_summed, 0);
    assert!(!s.cycle_fees_per_stake_summed.contains_key(&1));
}

#[test]
fn claim_rewards_with_nothing_fails() {
    let mut s = engine();
    let mut a = UserState::new();
    assert_eq!(s.claim_rewards(&mut a, T0 + 210), Err(ContractError::NoRewards {}));
}

#[test]
fn zero_and_excess_amounts_fail() {
    let mut s = engine();
    let mut a = UserState::new();
    assert_eq!(s.stake(&mut a, T0 + 10, 0), Err(ContractError::AmountIsZero {}));
    assert_eq!(s.unstake(&mut a, T0 + 10, 0), Err(ContractError::AmountIsZero {}));
    assert_eq!(s.unstake(&mut a, T0 + 10, 1), Err(ContractError::AmountGreaterThanWithdrawableStake {}));
}

#[test]
fn third_pending_stake_fails() {
    let mut s = engine();
    let mut a = UserState::new();
    a.acc_first_stake = 5;
    a.first_stake_amount = 10;
    a.acc_second_stake = 6;
    a.second_stake_amount = 20;
    let kept = a;
    assert_eq!(s.stake(&mut a, T0 + 10, 30), Err(ContractError::StakeSlotsFull {}));
    assert_eq!(a, kept);
    assert_eq!(s.base_state.pending_stake, 0);
    assert_eq!(s.stake(&mut a, T0 + 10, 0), Err(ContractError::AmountIsZero {}));
}

#[test]
fn second_stake_in_one_window_joins_its_slot() {
    let mut s = engine();
    let mut a = UserState::new();
    assert_eq!(s.stake(&mut a, T0 + 10, 100), Ok(100));
    assert_eq!(s.stake(&mut a, T0 + 20, 50), Ok(50));
    assert_eq!(a.acc_first_stake, 1);
    assert_eq!(a.first_stake_amount, 150);
    assert_eq!(a.acc_second_stake, 0);
}

#[test]
fn only_owner_reassigns_addresses() {
    let mut s = engine();
    assert_eq!(s.set_ustc_claimer(&vec![5], vec![8]), Err(ContractError::NotOwner {}));
    assert_eq!(s.config.ustc_claimer_address, claimer());
    assert_eq!(s.set_ustc_claimer(&owner(), vec![8]), Ok(()));
    assert_eq!(s.config.ustc_claimer_address, vec![8]);
    assert_eq!(s.set_dfc_addr(&vec![8], vec![4]), Err(ContractError::NotOwner {}));
    assert_eq!(s.set_dfc_addr(&owner(), vec![4]), Ok(()));
    assert_eq!(s.config.dfc_address, vec![4]);
}

#[test]
fn claimer_takes_reserve_once() {
    let mut s = engine();
    let mut a = UserState::new();
    assert_eq!(burn(&mut s, &mut a, T0 + 10, 4), Ok(0));
    assert_eq!(s.claim_ustc_reserved_fees(&owner()), Err(ContractError::NotClaimer {}));
    assert_eq!(s.claim_ustc_reserved_fees(&claimer()), Ok(399_920));
    assert_eq!(s.base_state.withdrawed_protocol_fees_reserved, 399_920);
    assert_eq!(s.claim_ustc_reserved_fees(&claimer()), Ok(0));
}

fn staked_and_burned() -> (DFCState, UserState) {
    let mut s = engine();
    let mut a = UserState::new();
    let mut b = UserState::new();
    assert_eq!(s.stake(&mut a, T0 + 10, 50_000_000_000), Ok(50_000_000_000));
    assert_eq!(burn(&mut s, &mut b, T0 + 110, 4), Ok(0));
    assert_eq!(s.query_cycle_info(1).summed_cycle_stakes, 249_800_399_201);
    (s, a)
}

#[test]
fn matured_stake_earns_fees_of_its_window() {
    let (mut s, mut a) = staked_and_burned();
    assert_eq!(s.query_unclaimed_fees(&a, T0 + 210).map(|r| r.amount), Ok(720_431));
    assert_eq!(s.claim_fees(&mut a, T0 + 210), Ok(720_431));
    assert_eq!(s.query_cycle_info(2).cycle_fees_per_stake_summed, 144_086_238);
    assert_eq!(s.claim_fees(&mut a, T0 + 210), Err(ContractError::NoFees {}));
}

#[test]
fn settlement_twice_in_a_cycle_credits_once() {
    let (mut s, mut a) = staked_and_burned();
    assert_eq!(s.unstake(&mut a, T0 + 210, 1), Ok(1));
    let after_first = a;
    assert_eq!(a.acc_accrued_fees, 720_431);
    assert_eq!(s.query_unclaimed_fees(&a, T0 + 250).map(|r| r.amount), Ok(720_431));
    assert_eq!(s.unstake(&mut a, T0 + 250, 1), Ok(1));
    assert_eq!(a.acc_accrued_fees, after_first.acc_accrued_fees);
    assert_eq!(a.acc_withdrawable_stake, after_first.acc_withdrawable_stake - 1);
}

#[test]
fn fee_index_never_decreases() {
    let (mut s, mut a) = staked_and_burned();
    let mut seen: Vec<u128> = (0..5).map(|k| s.query_cycle_info(k).cycle_fees_per_stake_summed).collect();
    let mut b = UserState::new();
    for now in [T0 + 210, T0 + 220, T0 + 330, T0 + 450] {
        let _ = s.claim_fees(&mut a, now);
        let _ = burn(&mut s, &mut b, now, 2);
        for k in 0..5u64 {
            let v = s.query_cycle_info(k).cycle_fees_per_stake_summed;
            assert!(v >= seen[k as usize]);
            if seen[k as usize] != 0 {
                assert_eq!(v, seen[k as usize]);
            }
            seen[k as usize] = v;
        }
    }
    assert!(s.base_state.current_cycle >= 4);
}

#[test]
fn previews_match_claims() {
    let (mut s, mut a) = staked_and_burned();
    let rewards = s.query_unclaimed_rewards(&a, T0 + 210).map(|r| r.amount);
    assert_eq!(rewards, Ok(0));
    let mut b = UserState::new();
    assert_eq!(burn(&mut s, &mut b, T0 + 220, 2), Ok(0));
    let preview = s.query_unclaimed_rewards(&b, T0 + 320).map(|r| r.amount).unwrap();
    assert!(preview > 0);
    assert_eq!(s.claim_rewards(&mut b, T0 + 320), Ok(preview));
    assert_eq!(s.claim_fees(&mut a, T0 + 320).is_ok(), true);
}

#[test]
fn emission_remainder_stays_unallocated() {
    let mut s = engine();
    let mut a = UserState::new();
    let mut b = UserState::new();
    assert_eq!(burn(&mut s, &mut a, T0 + 10, 3), Ok(0));
    assert_eq!(burn(&mut s, &mut b, T0 + 20, 7), Ok(0));
    s.reward_per_cycle.insert(0, 1_001);
    assert_eq!(s.query_unclaimed_rewards(&a, T0 + 150).map(|r| r.amount), Ok(300));
    assert_eq!(s.query_unclaimed_rewards(&b, T0 + 150).map(|r| r.amount), Ok(700));
}

#[test]
fn inconsistent_user_record_is_an_invariant_violation() {
    let mut s = engine();
    let mut a = UserState::new();
    a.acc_rewards = 5;
    a.acc_withdrawable_stake = 10;
    let kept = a;
    assert_eq!(s.claim_rewards(&mut a, T0 + 10), Err(ContractError::InvariantViolation {}));
    assert_eq!(a, kept);
    let mut b = UserState::new();
    b.acc_cycle_batches_burned = 4;
    assert_eq!(s.claim_fees(&mut b, T0 + 150), Err(ContractError::InvariantViolation {}));
}
