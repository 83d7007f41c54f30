//! The burn lottery built on the engine. Each burn extends the cycle's
//! deadline; the first burn after the deadline closes the cycle, pays the
//! last burner a share of the engine's protocol reserve and splits the rest
//! among the cycle's burns. Every burn splits its lunc between the inviter,
//! the burn address, the developers and the dividend of earlier burns.
use std::collections::HashMap;
use crate::contract::copy_address;
use crate::error::{ContractError, Denom};
use crate::model::{fits, fits64};
use crate::state::{at, at64, read, read64, MAX_BPS};
use vstd::prelude::*;

verus! {

broadcast use vstd::std_specs::hash::group_hash_axioms;

/// What each burn adds to the lunc price of the next one in its cycle.
pub const LUNC_PRICE_STEP: u128 = 100_000_000;
/// The reward tokens every lottery burn destroys.
pub const DFC_PER_BURN: u128 = 1_000_000;

/// The lottery's configuration. Percentages are in basis points of
/// `MAX_BPS`.
#[derive(Clone, Debug)]
pub struct Config {
    pub dfc_address: Vec<u8>,
    pub dflunc_address: Vec<u8>,
    pub dev_address: Vec<u8>,
    pub burned_address: Vec<u8>,
    pub max_delay_time: u64,
    pub delay_time_per_burn: u64,
    pub initial_lunc_amount_in: u128,
    pub dividend_percent: u64,
    pub burned_percent: u64,
    pub invite_percent: u64,
    pub dev_percent: u64,
    pub ustc_last_fire_numerator: u64,
    pub ustc_last_fire_denominator: u64,
}

/// The read-only projections of the lottery a caller may ask for.
#[derive(Clone, Debug)]
pub enum QueryMsg {
    GetConfig {},
    GetCycleInfo { cycle: u64 },
    GetUserInfo { user_address: String, cycle: u64 },
}

/// A migration of the lottery carries nothing.
#[derive(Clone, Copy, Debug, PartialEq, Eq, Structural)]
pub struct MigrateMsg {}

/// One user's record for one cycle.
#[derive(Clone, Copy, Debug, PartialEq, Eq, Structural)]
pub struct UserCycle {
    pub user_cycle_fires: u64,
    pub user_cycle_dividend_withdrawed: u128,
    pub user_cycle_ustc_dividend_withdrawed: bool,
}

impl UserCycle {
    /// A user with no burn in the cycle.
    pub fn new() -> (r: UserCycle)
        ensures
            r.user_cycle_fires == 0 && r.user_cycle_dividend_withdrawed == 0
                && !r.user_cycle_ustc_dividend_withdrawed,
    {
        UserCycle {
            user_cycle_fires: 0,
            user_cycle_dividend_withdrawed: 0,
            user_cycle_ustc_dividend_withdrawed: false,
        }
    }
}

/// The lottery state.
pub struct FomoDFCState {
    pub config: Config,
    pub end_time: u64,
    pub current_cycle: u64,
    pub cycle_last_burner: HashMap<u64, Vec<u8>>,
    pub cycle_last_burner_rewards: HashMap<u64, u128>,
    pub cycle_total_fires: HashMap<u64, u64>,
    pub cycle_total_dividend: HashMap<u64, u128>,
    pub cycle_total_burned: HashMap<u64, u128>,
    pub cycle_avg_lunc_dividend: HashMap<u64, u128>,
    pub cycle_avg_ustc_dividend: HashMap<u64, u128>,
    pub lunc_amount_in_required: HashMap<u64, u128>,
}

/// A share in basis points.
pub open spec fn bps_share(amount: u128, rate: u64) -> int {
    amount * rate / (MAX_BPS as int)
}

/// What arrives of a native lunc transfer: all but two per mille.
pub open spec fn net_of_send(amount: u128) -> int {
    amount * 998 / 1000
}

/// Where a burn stands once the deadline is dealt with: its cycle, the new
/// deadline, the burns already in the cycle, its price, and for a closed
/// cycle with a reserve to pay, the last burner's share and the share of
/// each burn.
pub struct Round {
    pub cycle: u64,
    pub end_time: u64,
    pub fires: u64,
    pub required: u128,
    pub ustc: Option<(u128, u128)>,
}

/// The round a burn at `now` finds, with `ustc` claimable from the engine.
pub open spec fn round(s: &FomoDFCState, now: u64, ustc: u128) -> Result<Round, ContractError> {
    let cfg = s.config;
    let c = s.current_cycle;
    let fires = at64(s.cycle_total_fires@, c);
    let required = s.lunc_amount_in_required@;
    if now > s.end_time {
        if !fits64(now + cfg.max_delay_time) {
            Err(ContractError::InvariantViolation {  })
        } else if fires > 0 {
            if c == u64::MAX {
                Err(ContractError::InvariantViolation {  })
            } else if ustc == 0 {
                Ok(Round { cycle: (c + 1) as u64, end_time: (now + cfg.max_delay_time) as u64, fires: 0, required: cfg.initial_lunc_amount_in, ustc: None })
            } else if !s.cycle_last_burner@.contains_key(c) {
                Err(ContractError::NoFireInCycle { cycle: c })
            } else {
                let to_last = ustc * cfg.ustc_last_fire_numerator / (cfg.ustc_last_fire_denominator as int);
                if cfg.ustc_last_fire_denominator == 0 || !fits(ustc * cfg.ustc_last_fire_numerator) || to_last > ustc {
                    Err(ContractError::InvariantViolation {  })
                } else {
                    Ok(Round {
                        cycle: (c + 1) as u64,
                        end_time: (now + cfg.max_delay_time) as u64,
                        fires: 0,
                        required: cfg.initial_lunc_amount_in,
                        ustc: Some((to_last as u128, ((ustc - to_last) / (fires as int)) as u128)),
                    })
                }
            }
        } else if !required.contains_key(c) {
            Err(ContractError::InvariantViolation {  })
        } else {
            Ok(Round { cycle: c, end_time: (now + cfg.max_delay_time) as u64, fires: 0, required: required[c], ustc: None })
        }
    } else if !fits64(s.end_time + cfg.delay_time_per_burn) || !fits64(now + cfg.max_delay_time) || !required.contains_key(c) {
        Err(ContractError::InvariantViolation {  })
    } else {
        let extended = s.end_time + cfg.delay_time_per_burn;
        let cap = now + cfg.max_delay_time;
        Ok(Round { cycle: c, end_time: (if extended > cap { cap } else { extended }) as u64, fires, required: required[c], ustc: None })
    }
}

/// The split of a burn's price: to the inviter (only one that has burned
/// before), to the burn address, to the developers, and what is left for
/// the dividend.
pub open spec fn split(cfg: Config, required: u128, inviter: Option<bool>) -> Result<(u128, u128, u128, u128), ContractError> {
    let invite = if inviter == Some(true) { bps_share(required, cfg.invite_percent) } else { 0 };
    let burned = bps_share(required, cfg.burned_percent);
    let dev = bps_share(required, cfg.dev_percent);
    if !fits(required * cfg.invite_percent) || !fits(required * cfg.burned_percent) || !fits(required * cfg.dev_percent)
        || invite + burned + dev > required {
        Err(ContractError::InvariantViolation {  })
    } else {
        Ok((invite as u128, burned as u128, dev as u128, (required - invite - burned - dev) as u128))
    }
}

/// All the checks of a burn by a user with record `u`: the round it finds,
/// the price it pays, the split, and the range of every sum it writes.
pub open spec fn burn_plan(s: &FomoDFCState, u: UserCycle, now: u64, lunc_paid: u128, inviter: Option<bool>, ustc: u128) -> Result<(Round, (u128, u128, u128, u128)), ContractError> {
    match round(s, now, ustc) {
        Err(e) => Err(e),
        Ok(rd) => if lunc_paid < rd.required {
            Err(ContractError::NotMatchedFund { symbol: Denom::Lunc, amount: lunc_paid, required: rd.required })
        } else {
            match split(s.config, rd.required, inviter) {
                Err(e) => Err(e),
                Ok((i, b, d, l)) => {
                    let c = rd.cycle;
                    let first = rd.fires == 0;
                    let sends = fits((lunc_paid - rd.required) * 998) && fits(i * 998) && fits(b * 998) && fits(d * 998)
                        && (first ==> fits(l * 998));
                    let totals = fits(at(s.cycle_total_burned@, c) + b + (if first { l as int } else { 0 }))
                        && fits(rd.required + LUNC_PRICE_STEP) && fits64(rd.fires + 1);
                    let dividend = !first ==> (fits(at(s.cycle_avg_lunc_dividend@, c) + (l as int) / (rd.fires as int))
                        && fits(at(s.cycle_total_dividend@, c) + l) && fits64(u.user_cycle_fires + 1)
                        && fits(u.user_cycle_dividend_withdrawed + at(s.cycle_avg_lunc_dividend@, c) + (l as int) / (rd.fires as int)));
                    if sends && totals && dividend {
                        Ok((rd, (i, b, d, l)))
                    } else {
                        Err(ContractError::InvariantViolation {  })
                    }
                },
            }
        },
    }
}

/// The user's lunc dividend of a cycle not yet taken: the cycle's dividend
/// per burn times the user's burns, less what it took or was born owing.
pub open spec fn lunc_dividend_left(s: &FomoDFCState, u: UserCycle, cycle: u64) -> int {
    at(s.cycle_avg_lunc_dividend@, cycle) * u.user_cycle_fires - u.user_cycle_dividend_withdrawed
}

/// The lottery's per-cycle snapshot.
#[derive(Clone, Debug)]
pub struct GetCycleInfoResponse {
    pub end_time: u64,
    pub current_cycle: u64,
    pub cycle_total_fires: u64,
    pub cycle_total_dividend: u128,
    pub cycle_total_burned: u128,
    pub cycle_avg_lunc_dividend: u128,
    pub cycle_avg_ustc_dividend: u128,
    pub lunc_amount_in_required: u128,
    pub cycle_last_burner: Vec<u8>,
    pub cycle_last_burner_rewards: u128,
}

/// One user's snapshot for a cycle.
#[derive(Clone, Copy, Debug, PartialEq, Eq, Structural)]
pub struct GetUserInfoResponse {
    pub user_cycle_fires: u64,
    pub user_cycle_dividend_withdrawed: u128,
    pub user_cycle_ustc_dividend_withdrawed: bool,
    pub user_burned_at_least_once: bool,
}

/// The snapshot of a user's record for a cycle.
pub fn query_user_info(user: &UserCycle, burned_before: bool) -> (r: GetUserInfoResponse)
    ensures
        r == (GetUserInfoResponse {
            user_cycle_fires: user.user_cycle_fires,
            user_cycle_dividend_withdrawed: user.user_cycle_dividend_withdrawed,
            user_cycle_ustc_dividend_withdrawed: user.user_cycle_ustc_dividend_withdrawed,
            user_burned_at_least_once: burned_before,
        }),
{
    GetUserInfoResponse {
        user_cycle_fires: user.user_cycle_fires,
        user_cycle_dividend_withdrawed: user.user_cycle_dividend_withdrawed,
        user_cycle_ustc_dividend_withdrawed: user.user_cycle_ustc_dividend_withdrawed,
        user_burned_at_least_once: burned_before,
    }
}

/// The transfers a burn calls for. Lunc amounts are what arrives, after the
/// cost of sending.
pub struct FomoBurn {
    /// The cycle the burn counted in.
    pub cycle: u64,
    /// Where the reserve was claimed from the engine: the last burner of the
    /// closed cycle and its share.
    pub ustc_to_last_burner: Option<(Vec<u8>, u128)>,
    pub refund: u128,
    pub inviter_reward: u128,
    pub burned: u128,
    pub dev_reward: u128,
    pub dividend_burned: u128,
}

impl FomoDFCState {
    /// Creates the lottery with the first cycle's price.
    pub fn instantiate(config: Config) -> (r: FomoDFCState)
        ensures
            r.config == config,
            r.end_time == 0,
            r.current_cycle == 0,
            r.lunc_amount_in_required@ == map![0u64 => config.initial_lunc_amount_in],
            r.cycle_last_burner@ == Map::<u64, Vec<u8>>::empty(),
            r.cycle_total_fires@ == Map::<u64, u64>::empty(),
            r.cycle_avg_lunc_dividend@ == Map::<u64, u128>::empty(),
            r.cycle_avg_ustc_dividend@ == Map::<u64, u128>::empty(),
            r.cycle_total_burned@ == Map::<u64, u128>::empty(),
            r.cycle_total_dividend@ == Map::<u64, u128>::empty(),
            r.cycle_last_burner_rewards@ == Map::<u64, u128>::empty(),
    {
        let mut lunc_amount_in_required: HashMap<u64, u128> = HashMap::new();
        lunc_amount_in_required.insert(0, config.initial_lunc_amount_in);
        assert(lunc_amount_in_required@ =~= map![0u64 => config.initial_lunc_amount_in]);
        FomoDFCState {
            config,
            end_time: 0,
            current_cycle: 0,
            cycle_last_burner: HashMap::new(),
            cycle_last_burner_rewards: HashMap::new(),
            cycle_total_fires: HashMap::new(),
            cycle_total_dividend: HashMap::new(),
            cycle_total_burned: HashMap::new(),
            cycle_avg_lunc_dividend: HashMap::new(),
            cycle_avg_ustc_dividend: HashMap::new(),
            lunc_amount_in_required,
        }
    }

    /// The round a burn at `now` finds; `ustc` is what the engine's reserve
    /// holds for claiming.
    pub fn start_round(&self, now: u64, ustc: u128) -> (r: Result<Round, ContractError>)
        ensures
            r == round(self, now, ustc),
    {
        let cfg = &self.config;
        let c = self.current_cycle;
        let fires = read64(&self.cycle_total_fires, c);
        if now > self.end_time {
            let end_time = match now.checked_add(cfg.max_delay_time) {
                Some(v) => v,
                None => { return Err(ContractError::InvariantViolation {  }) },
            };
            if fires > 0 {
                if c == u64::MAX {
                    return Err(ContractError::InvariantViolation {  });
                }
                if ustc == 0 {
                    return Ok(Round { cycle: c + 1, end_time, fires: 0, required: cfg.initial_lunc_amount_in, ustc: None });
                }
                if !self.cycle_last_burner.contains_key(&c) {
                    return Err(ContractError::NoFireInCycle { cycle: c });
                }
                if cfg.ustc_last_fire_denominator == 0 {
                    return Err(ContractError::InvariantViolation {  });
                }
                let to_last = match ustc.checked_mul(cfg.ustc_last_fire_numerator as u128) {
                    Some(v) => v / (cfg.ustc_last_fire_denominator as u128),
                    None => { return Err(ContractError::InvariantViolation {  }) },
                };
                if to_last > ustc {
                    return Err(ContractError::InvariantViolation {  });
                }
                let avg = (ustc - to_last) / (fires as u128);
                return Ok(Round { cycle: c + 1, end_time, fires: 0, required: cfg.initial_lunc_amount_in, ustc: Some((to_last, avg)) });
            }
            return match self.lunc_amount_in_required.get(&c) {
                Some(req) => Ok(Round { cycle: c, end_time, fires: 0, required: *req, ustc: None }),
                None => Err(ContractError::InvariantViolation {  }),
            };
        }
        let extended = match self.end_time.checked_add(cfg.delay_time_per_burn) {
            Some(v) => v,
            None => { return Err(ContractError::InvariantViolation {  }) },
        };
        let cap = match now.checked_add(cfg.max_delay_time) {
            Some(v) => v,
            None => { return Err(ContractError::InvariantViolation {  }) },
        };
        match self.lunc_amount_in_required.get(&c) {
            Some(req) => Ok(Round { cycle: c, end_time: if extended > cap { cap } else { extended }, fires, required: *req, ustc: None }),
            None => Err(ContractError::InvariantViolation {  }),
        }
    }

    /// `amount` in basis points of `rate`.
    fn share(amount: u128, rate: u64) -> (r: Result<u128, ContractError>)
        ensures
            match r {
                Ok(v) => fits(amount * rate) && v == bps_share(amount, rate),
                Err(e) => !fits(amount * rate) && e == ContractError::InvariantViolation {  },
            },
    {
        match amount.checked_mul(rate as u128) {
            Some(v) => Ok(v / (MAX_BPS as u128)),
            None => Err(ContractError::InvariantViolation {  }),
        }
    }

    /// The split of a burn's price.
    pub fn split_price(&self, required: u128, inviter: Option<bool>) -> (r: Result<(u128, u128, u128, u128), ContractError>)
        ensures
            r == split(self.config, required, inviter),
    {
        let invite_all = match Self::share(required, self.config.invite_percent) {
            Ok(v) => v,
            Err(e) => { return Err(e) },
        };
        let burned = match Self::share(required, self.config.burned_percent) {
            Ok(v) => v,
            Err(e) => { return Err(e) },
        };
        let dev = match Self::share(required, self.config.dev_percent) {
            Ok(v) => v,
            Err(e) => { return Err(e) },
        };
        let invite = match inviter {
            Some(true) => invite_all,
            _ => 0,
        };
        if invite > required || burned > required - invite || dev > required - invite - burned {
            return Err(ContractError::InvariantViolation {  });
        }
        Ok((invite, burned, dev, required - invite - burned - dev))
    }

    /// What arrives of a lunc transfer of `amount`.
    pub fn send_lunc(amount: u128) -> (r: Result<u128, ContractError>)
        ensures
            match r {
                Ok(v) => fits(amount * 998) && v == net_of_send(amount),
                Err(e) => !fits(amount * 998) && e == ContractError::InvariantViolation {  },
            },
    {
        match amount.checked_mul(998) {
            Some(v) => Ok(v / 1000),
            None => Err(ContractError::InvariantViolation {  }),
        }
    }

    /// A later burn's part of the dividend: the cycle's new dividend per
    /// burn, and the user's record with the burn counted and that dividend
    /// marked taken (a burn earns only from the burns after it).
    pub fn calculate_dividend(&self, cycle: u64, fires: u64, left: u128, u: UserCycle) -> (r: Result<(u128, UserCycle), ContractError>)
        requires
            fires > 0,
        ensures
            match r {
                Ok((avg, u2)) => {
                    let a = at(self.cycle_avg_lunc_dividend@, cycle) + (left as int) / (fires as int);
                    fits(a) && avg == a && fits64(u.user_cycle_fires + 1) && fits(u.user_cycle_dividend_withdrawed + a)
                        && u2 == (UserCycle {
                        user_cycle_fires: (u.user_cycle_fires + 1) as u64,
                        user_cycle_dividend_withdrawed: (u.user_cycle_dividend_withdrawed + a) as u128,
                        ..u
                    })
                },
                Err(e) => e == ContractError::InvariantViolation {  } && !(fits(at(self.cycle_avg_lunc_dividend@, cycle) + (left as int) / (fires as int))
                    && fits64(u.user_cycle_fires + 1) && fits(u.user_cycle_dividend_withdrawed + at(self.cycle_avg_lunc_dividend@, cycle) + (left as int) / (fires as int))),
            },
    {
        let avg = match read(&self.cycle_avg_lunc_dividend, cycle).checked_add(left / (fires as u128)) {
            Some(v) => v,
            None => { return Err(ContractError::InvariantViolation {  }) },
        };
        let fires_after = match u.user_cycle_fires.checked_add(1) {
            Some(v) => v,
            None => { return Err(ContractError::InvariantViolation {  }) },
        };
        let taken = match u.user_cycle_dividend_withdrawed.checked_add(avg) {
            Some(v) => v,
            None => { return Err(ContractError::InvariantViolation {  }) },
        };
        Ok((avg, UserCycle { user_cycle_fires: fires_after, user_cycle_dividend_withdrawed: taken, ..u }))
    }

    /// A burn by `sender`, who paid `lunc_paid`, named `inviter` (whether
    /// that inviter has burned before, if one was named), and finds `ustc`
    /// claimable in the engine's reserve. `user` is the sender's record for
    /// the cycle the burn counts in (`start_round(now, ustc)`'s cycle), and
    /// `burned_before` whether the sender burned before.
    pub fn burn(
        &mut self,
        sender: Vec<u8>,
        user: &mut UserCycle,
        burned_before: &mut bool,
        now: u64,
        lunc_paid: u128,
        inviter: Option<bool>,
        ustc: u128,
    ) -> (r: Result<FomoBurn, ContractError>)
        ensures
            final(self).config == old(self).config,
            match burn_plan(old(self), *old(user), now, lunc_paid, inviter, ustc) {
                Err(e) => r == Err::<FomoBurn, ContractError>(e) && *final(self) == *old(self)
                    && *final(user) == *old(user) && *final(burned_before) == *old(burned_before),
                Ok((rd, (i, b, d, l))) => {
                    let o = old(self);
                    let c = rd.cycle;
                    let first = rd.fires == 0;
                    let avg = at(o.cycle_avg_lunc_dividend@, c) + (l as int) / (rd.fires as int);
                    &&& r matches Ok(out)
                    &&& out.cycle == c
                    &&& out.refund == net_of_send((lunc_paid - rd.required) as u128)
                    &&& out.inviter_reward == net_of_send(i)
                    &&& out.burned == net_of_send(b)
                    &&& out.dev_reward == net_of_send(d)
                    &&& out.dividend_burned == (if first { net_of_send(l) } else { 0 })
                    &&& final(self).current_cycle == c
                    &&& final(self).end_time == rd.end_time
                    &&& final(self).lunc_amount_in_required@ == o.lunc_amount_in_required@.insert(c, (rd.required + LUNC_PRICE_STEP) as u128)
                    &&& final(self).cycle_total_fires@ == o.cycle_total_fires@.insert(c, (rd.fires + 1) as u64)
                    &&& final(self).cycle_total_burned@ == o.cycle_total_burned@.insert(c, (at(o.cycle_total_burned@, c) + b + (if first { l as int } else { 0 })) as u128)
                    &&& final(self).cycle_last_burner@ == o.cycle_last_burner@.insert(c, sender)
                    &&& *final(burned_before)
                    &&& if first {
                        &&& final(self).cycle_avg_lunc_dividend@ == o.cycle_avg_lunc_dividend@
                        &&& final(self).cycle_total_dividend@ == o.cycle_total_dividend@
                        &&& *final(user) == UserCycle { user_cycle_fires: 1, ..*old(user) }
                    } else {
                        &&& final(self).cycle_avg_lunc_dividend@ == o.cycle_avg_lunc_dividend@.insert(c, avg as u128)
                        &&& final(self).cycle_total_dividend@ == o.cycle_total_dividend@.insert(c, (at(o.cycle_total_dividend@, c) + l) as u128)
                        &&& *final(user) == UserCycle {
                            user_cycle_fires: (old(user).user_cycle_fires + 1) as u64,
                            user_cycle_dividend_withdrawed: (old(user).user_cycle_dividend_withdrawed + avg) as u128,
                            ..*old(user)
                        }
                    }
                    &&& match rd.ustc {
                        Some((t, a)) => {
                            &&& out.ustc_to_last_burner matches Some((addr, amount))
                            &&& addr@ == o.cycle_last_burner@[o.current_cycle]@
                            &&& amount == t
                            &&& final(self).cycle_last_burner_rewards@ == o.cycle_last_burner_rewards@.insert(o.current_cycle, t)
                            &&& final(self).cycle_avg_ustc_dividend@ == o.cycle_avg_ustc_dividend@.insert(o.current_cycle, a)
                        },
                        None => {
                            &&& out.ustc_to_last_burner is None
                            &&& final(self).cycle_last_burner_rewards@ == o.cycle_last_burner_rewards@
                            &&& final(self).cycle_avg_ustc_dividend@ == o.cycle_avg_ustc_dividend@
                        },
                    }
                },
            },
    {
        let rd = match self.start_round(now, ustc) {
            Ok(v) => v,
            Err(e) => { return Err(e) },
        };
        if lunc_paid < rd.required {
            return Err(ContractError::NotMatchedFund { symbol: Denom::Lunc, amount: lunc_paid, required: rd.required });
        }
        let (i, b, d, l) = match self.split_price(rd.required, inviter) {
            Ok(v) => v,
            Err(e) => { return Err(e) },
        };
        let c = rd.cycle;
        let first = rd.fires == 0;
        let refund = match Self::send_lunc(lunc_paid - rd.required) {
            Ok(v) => v,
            Err(e) => { return Err(e) },
        };
        let inviter_reward = match Self::send_lunc(i) {
            Ok(v) => v,
            Err(e) => { return Err(e) },
        };
        let burned = match Self::send_lunc(b) {
            Ok(v) => v,
            Err(e) => { return Err(e) },
        };
        let dev_reward = match Self::send_lunc(d) {
            Ok(v) => v,
            Err(e) => { return Err(e) },
        };
        let dividend_burned = if first {
            match Self::send_lunc(l) {
                Ok(v) => v,
                Err(e) => { return Err(e) },
            }
        } else {
            0
        };
        let burned_with_own = match read(&self.cycle_total_burned, c).checked_add(b) {
            Some(v) => v,
            None => { return Err(ContractError::InvariantViolation {  }) },
        };
        let total_burned = if first {
            match burned_with_own.checked_add(l) {
                Some(v) => v,
                None => { return Err(ContractError::InvariantViolation {  }) },
            }
        } else {
            burned_with_own
        };
        let next_required = match rd.required.checked_add(LUNC_PRICE_STEP) {
            Some(v) => v,
            None => { return Err(ContractError::InvariantViolation {  }) },
        };
        let next_fires = match rd.fires.checked_add(1) {
            Some(v) => v,
            None => { return Err(ContractError::InvariantViolation {  }) },
        };
        let mut dividend: Option<(u128, u128, UserCycle)> = None;
        if !first {
            let (avg, u2) = match self.calculate_dividend(c, rd.fires, l, *user) {
                Ok(v) => v,
                Err(e) => { return Err(e) },
            };
            let total_dividend = match read(&self.cycle_total_dividend, c).checked_add(l) {
                Some(v) => v,
                None => { return Err(ContractError::InvariantViolation {  }) },
            };
            dividend = Some((avg, total_dividend, u2));
        }
        let closed = self.current_cycle;
        let ustc_to_last_burner = match rd.ustc {
            Some((t, a)) => {
                let last = match self.cycle_last_burner.get(&closed) {
                    Some(v) => copy_address(v),
                    None => { return Err(ContractError::NoFireInCycle { cycle: closed }) },
                };
                self.cycle_last_burner_rewards.insert(closed, t);
                self.cycle_avg_ustc_dividend.insert(closed, a);
                Some((last, t))
            },
            None => None,
        };
        self.current_cycle = c;
        self.end_time = rd.end_time;
        self.lunc_amount_in_required.insert(c, next_required);
        self.cycle_total_fires.insert(c, next_fires);
        self.cycle_total_burned.insert(c, total_burned);
        self.cycle_last_burner.insert(c, sender);
        match dividend {
            Some((avg, total_dividend, u2)) => {
                self.cycle_avg_lunc_dividend.insert(c, avg);
                self.cycle_total_dividend.insert(c, total_dividend);
                *user = u2;
            },
            None => {
                user.user_cycle_fires = 1;
            },
        }
        *burned_before = true;
        Ok(FomoBurn { cycle: c, ustc_to_last_burner, refund, inviter_reward, burned, dev_reward, dividend_burned })
    }

    /// Takes the user's lunc dividend of `cycle`. Yields what is credited
    /// and what arrives after the cost of sending.
    pub fn claim_lunc_dividend(&self, user: &mut UserCycle, cycle: u64) -> (r: Result<(u128, u128), ContractError>)
        ensures
            match r {
                Ok((credited, sent)) => {
                    let left = lunc_dividend_left(self, *old(user), cycle);
                    &&& fits(at(self.cycle_avg_lunc_dividend@, cycle) * old(user).user_cycle_fires)
                    &&& left >= 0 && credited == left && sent == net_of_send(credited)
                    &&& *final(user) == UserCycle { user_cycle_dividend_withdrawed: (old(user).user_cycle_dividend_withdrawed + left) as u128, ..*old(user) }
                },
                Err(e) => e == ContractError::InvariantViolation {  } && *final(user) == *old(user),
            },
    {
        let avg = read(&self.cycle_avg_lunc_dividend, cycle);
        let earned = match avg.checked_mul(user.user_cycle_fires as u128) {
            Some(v) => v,
            None => { return Err(ContractError::InvariantViolation {  }) },
        };
        if earned < user.user_cycle_dividend_withdrawed {
            return Err(ContractError::InvariantViolation {  });
        }
        let left = earned - user.user_cycle_dividend_withdrawed;
        let sent = match Self::send_lunc(left) {
            Ok(v) => v,
            Err(e) => { return Err(e) },
        };
        user.user_cycle_dividend_withdrawed = earned;
        Ok((left, sent))
    }

    /// Takes the user's ustc dividend of `cycle`, once.
    pub fn claim_ustc_dividend(&self, user: &mut UserCycle, cycle: u64) -> (r: Result<u128, ContractError>)
        ensures
            match r {
                Ok(amount) => !old(user).user_cycle_ustc_dividend_withdrawed && amount == at(
                    self.cycle_avg_ustc_dividend@,
                    cycle,
                ) * old(user).user_cycle_fires && *final(user) == UserCycle {
                    user_cycle_ustc_dividend_withdrawed: true,
                    ..*old(user)
                },
                Err(e) => *final(user) == *old(user) && if old(user).user_cycle_ustc_dividend_withdrawed {
                    e == (ContractError::AlreadyWithdrawed { cycle })
                } else {
                    e == ContractError::InvariantViolation {  } && !fits(
                        at(self.cycle_avg_ustc_dividend@, cycle) * old(user).user_cycle_fires,
                    )
                },
            },
    {
        if user.user_cycle_ustc_dividend_withdrawed {
            return Err(ContractError::AlreadyWithdrawed { cycle });
        }
        let amount = match read(&self.cycle_avg_ustc_dividend, cycle).checked_mul(user.user_cycle_fires as u128) {
            Some(v) => v,
            None => { return Err(ContractError::InvariantViolation {  }) },
        };
        user.user_cycle_ustc_dividend_withdrawed = true;
        Ok(amount)
    }

    /// The snapshot of `cycle`, zeros where nothing was written and an
    /// empty address where no one burned.
    pub fn query_cycle_info(&self, cycle: u64) -> (r: GetCycleInfoResponse)
        ensures
            r.end_time == self.end_time,
            r.current_cycle == self.current_cycle,
            r.cycle_total_fires == at64(self.cycle_total_fires@, cycle),
            r.cycle_total_dividend == at(self.cycle_total_dividend@, cycle),
            r.cycle_total_burned == at(self.cycle_total_burned@, cycle),
            r.cycle_avg_lunc_dividend == at(self.cycle_avg_lunc_dividend@, cycle),
            r.cycle_avg_ustc_dividend == at(self.cycle_avg_ustc_dividend@, cycle),
            r.lunc_amount_in_required == at(self.lunc_amount_in_required@, cycle),
            r.cycle_last_burner_rewards == at(self.cycle_last_burner_rewards@, cycle),
            if self.cycle_last_burner@.contains_key(cycle) {
                r.cycle_last_burner@ == self.cycle_last_burner@[cycle]@
            } else {
                r.cycle_last_burner@.len() == 0
            },
    {
        let cycle_last_burner = match self.cycle_last_burner.get(&cycle) {
            Some(a) => copy_address(a),
            None => Vec::new(),
        };
        GetCycleInfoResponse {
            end_time: self.end_time,
            current_cycle: self.current_cycle,
            cycle_total_fires: read64(&self.cycle_total_fires, cycle),
            cycle_total_dividend: read(&self.cycle_total_dividend, cycle),
            cycle_total_burned: read(&self.cycle_total_burned, cycle),
            cycle_avg_lunc_dividend: read(&self.cycle_avg_lunc_dividend, cycle),
            cycle_avg_ustc_dividend: read(&self.cycle_avg_ustc_dividend, cycle),
            lunc_amount_in_required: read(&self.lunc_amount_in_required, cycle),
            cycle_last_burner,
            cycle_last_burner_rewards: read(&self.cycle_last_burner_rewards, cycle),
        }
    }
}

} // verus!
