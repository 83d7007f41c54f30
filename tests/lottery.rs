use dflunc::error::{ContractError, Denom};
use dflunc::fomo::{query_user_info, Config, FomoDFCState, UserCycle, DFC_PER_BURN};

const PRICE: u128 = 10_000_000_000;

fn lottery() -> FomoDFCState {
    FomoDFCState::instantiate(Config {
        dfc_address: vec![1],
        dflunc_address: vec![2],
        dev_address: vec![3],
        burned_address: vec![4],
        max_delay_time: 86_400,
        delay_time_per_burn: 60,
        initial_lunc_amount_in: PRICE,
        dividend_percent: 70_000,
        burned_percent: 13_000,
        invite_percent: 12_000,
        dev_percent: 5_000,
        ustc_last_fire_numerator: 2,
        ustc_last_fire_denominator: 3,
    })
}

fn a() -> Vec<u8> {
    vec![10]
}

fn b() -> Vec<u8> {
    vec![11]
}

#[test]
fn first_burn_of_a_cycle_burns_its_dividend() {
    let mut s = lottery();
    let mut ua = UserCycle::new();
    let mut before = false;
    let out = s.burn(a(), &mut ua, &mut before, 1_000, PRICE + 500, None, 0).unwrap();
    assert_eq!(out.cycle, 0);
    assert_eq!(out.refund, 499);
    assert_eq!(out.inviter_reward, 0);
    assert_eq!(out.burned, 1_297_400_000);
    assert_eq!(out.dev_reward, 499_000_000);
    assert_eq!(out.dividend_burned, 8_183_600_000);
    assert!(out.ustc_to_last_burner.is_none());
    assert!(before);
    assert_eq!(ua.user_cycle_fires, 1);
    let info = s.query_cycle_info(0);
    assert_eq!(info.end_time, 87_400);
    assert_eq!(info.cycle_total_fires, 1);
    assert_eq!(info.cycle_total_burned, 9_500_000_000);
    assert_eq!(info.lunc_amount_in_required, PRICE + 100_000_000);
    assert_eq!(info.cycle_last_burner, a());
    assert_eq!(DFC_PER_BURN, 1_000_000);
}

#[test]
fn later_burn_pays_inviter_and_earlier_burners() {
    let mut s = lottery();
    let (mut ua, mut ub) = (UserCycle::new(), UserCycle::new());
    let (mut ba, mut bb) = (false, false);
    s.burn(a(), &mut ua, &mut ba, 1_000, PRICE, None, 0).unwrap();
    let out = s.burn(b(), &mut ub, &mut bb, 1_010, PRICE + 100_000_000, Some(true), 0).unwrap();
    assert_eq!(out.inviter_reward, 1_209_576_000);
    assert_eq!(out.dividend_burned, 0);
    assert_eq!(s.end_time, 87_410);
    let info = s.query_cycle_info(0);
    assert_eq!(info.cycle_avg_lunc_dividend, 7_070_000_000);
    assert_eq!(info.cycle_total_dividend, 7_070_000_000);
    assert_eq!(ub.user_cycle_dividend_withdrawed, 7_070_000_000);
    assert_eq!(s.claim_lunc_dividend(&mut ua, 0), Ok((7_070_000_000, 7_055_860_000)));
    assert_eq!(s.claim_lunc_dividend(&mut ua, 0), Ok((0, 0)));
    assert_eq!(s.claim_lunc_dividend(&mut ub, 0), Ok((0, 0)));
    let view = query_user_info(&ua, ba);
    assert_eq!(view.user_cycle_dividend_withdrawed, 7_070_000_000);
    assert!(view.user_burned_at_least_once);
}

#[test]
fn burn_after_deadline_closes_cycle() {
    let mut s = lottery();
    let (mut ua, mut ub) = (UserCycle::new(), UserCycle::new());
    let (mut ba, mut bb) = (false, false);
    s.burn(a(), &mut ua, &mut ba, 1_000, PRICE, None, 0).unwrap();
    s.burn(b(), &mut ub, &mut bb, 1_010, PRICE + 100_000_000, None, 0).unwrap();
    assert_eq!(s.start_round(87_411, 900).map(|r| r.cycle), Ok(1));
    let mut ua1 = UserCycle::new();
    let out = s.burn(a(), &mut ua1, &mut ba, 87_411, PRICE, None, 900).unwrap();
    assert_eq!(out.cycle, 1);
    assert_eq!(out.ustc_to_last_burner, Some((b(), 600)));
    assert_eq!(s.current_cycle, 1);
    assert_eq!(s.query_cycle_info(0).cycle_avg_ustc_dividend, 150);
    assert_eq!(s.query_cycle_info(0).cycle_last_burner_rewards, 600);
    assert_eq!(s.query_cycle_info(1).cycle_total_fires, 1);
    assert_eq!(s.claim_ustc_dividend(&mut ua, 0), Ok(150));
    assert_eq!(s.claim_ustc_dividend(&mut ua, 0), Err(ContractError::AlreadyWithdrawed { cycle: 0 }));
}

#[test]
fn underpaid_burn_fails() {
    let mut s = lottery();
    let mut ua = UserCycle::new();
    let mut before = false;
    let r = s.burn(a(), &mut ua, &mut before, 1_000, PRICE - 1, None, 0);
    assert!(matches!(
        r,
        Err(ContractError::NotMatchedFund { symbol: Denom::Lunc, amount, required }) if amount == PRICE - 1 && required == PRICE
    ));
    assert!(!before);
    assert_eq!(ua, UserCycle::new());
    assert_eq!(s.query_cycle_info(0).cycle_total_fires, 0);
    assert_eq!(s.query_cycle_info(0).cycle_last_burner, Vec::<u8>::new());
}

#[test]
fn closing_a_cycle_without_burner_fails() {
    let mut s = lottery();
    s.cycle_total_fires.insert(0, 1);
    let mut ua = UserCycle::new();
    let mut before = false;
    let r = s.burn(a(), &mut ua, &mut before, 1_000, PRICE, None, 900);
    assert!(matches!(r, Err(ContractError::NoFireInCycle { cycle: 0 })));
    assert_eq!(s.current_cycle, 0);
}

#[test]
fn overflowing_dividend_is_an_invariant_violation() {
    let mut s = lottery();
    s.cycle_avg_ustc_dividend.insert(0, u128::MAX);
    let mut ua = UserCycle { user_cycle_fires: 2, user_cycle_dividend_withdrawed: 0, user_cycle_ustc_dividend_withdrawed: false };
    assert_eq!(s.claim_ustc_dividend(&mut ua, 0), Err(ContractError::InvariantViolation {}));
    assert!(!ua.user_cycle_ustc_dividend_withdrawed);
}
