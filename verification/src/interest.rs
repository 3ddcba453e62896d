//! The interest that a reserve's borrowers owe: the rate, which follows
//! the share of the reserve that is lent out, and how it accrues.

use vstd::prelude::*;
use crate::errors::ErrorCode;
use crate::number::{expm1_raw, max_raw, one, Number};
use crate::reserve::{Reserve, ReserveConfig, ReserveState};
use crate::utils::JobCompletion;

verus! {

/// Two hours, in seconds.
pub const SECONDS_PER_2H: i64 = 7200;

/// Twelve hours, in seconds.
pub const SECONDS_PER_12H: i64 = 43_200;

/// A day, in seconds.
pub const SECONDS_PER_DAY: i64 = 86_400;

/// A week, in seconds.
pub const SECONDS_PER_WEEK: i64 = 604_800;

/// A year of 365 days, in seconds.
pub const SECONDS_PER_YEAR: i64 = 31_536_000;

/// The longest time over which one call accrues interest.
pub const MAX_ACCRUAL_SECONDS: i64 = 604_800;

/// The raw value of `bps` hundredths of a percent.
pub open spec fn bps_raw(bps: u16) -> nat {
    (bps as nat) * 100_000_000_000
}

/// The raw share of the reserve's tokens that is lent out.
pub open spec fn utilization_spec(debt: nat, vault_total: u64) -> nat {
    debt * one() / (debt + (vault_total as nat) * one())
}

/// The raw value at `x` of the line from `(x0, y0)` to `(x1, y1)`: the
/// product is rounded down to fifteen fractional digits before it is
/// divided, and the quotient is rounded down again.
pub open spec fn interpolate_spec(x: nat, x0: nat, x1: nat, y0: nat, y1: nat) -> nat {
    y0 + (((x - x0) as nat) * ((y1 - y0) as nat) / one()) * one() / ((x1 - x0) as nat)
}

/// The value on one regime of the interest curve, which must rise and
/// have some width.
pub open spec fn regime_spec(x: nat, x0: nat, x1: nat, y0: nat, y1: nat) -> Result<nat, ErrorCode> {
    if x0 >= x1 || y0 > y1 {
        Err(ErrorCode::InvalidParameter)
    } else {
        Ok(interpolate_spec(x, x0, x1, y0, y1))
    }
}

/// The raw yearly interest rate of a reserve that is owed `debt` and
/// holds `vault_total` tokens: a curve of three straight regimes over
/// the utilization.
pub open spec fn interest_rate_spec(config: ReserveConfig, debt: nat, vault_total: u64) -> Result<
    nat,
    ErrorCode,
> {
    let util_1 = bps_raw(config.utilization_rate_1);
    let util_2 = bps_raw(config.utilization_rate_2);
    let borrow_0 = bps_raw(config.borrow_rate_0);
    let borrow_1 = bps_raw(config.borrow_rate_1);
    let borrow_2 = bps_raw(config.borrow_rate_2);
    let borrow_3 = bps_raw(config.borrow_rate_3);
    if vault_total == 0 && debt == 0 {
        Ok(borrow_1)
    } else if debt * one() > max_raw() || debt + vault_total * one() > max_raw() {
        Err(ErrorCode::Overflow)
    } else {
        let util = utilization_spec(debt, vault_total);
        if util <= util_1 {
            regime_spec(util, 0, util_1, borrow_0, borrow_1)
        } else if util <= util_2 {
            regime_spec(util, util_1, util_2, borrow_1, borrow_2)
        } else if util < one() {
            regime_spec(util, util_2, one(), borrow_2, borrow_3)
        } else {
            Ok(borrow_3)
        }
    }
}

/// The number of terms of the series that interest over `seconds` is
/// compounded with.
pub open spec fn terms_for(seconds: int) -> nat {
    if seconds <= SECONDS_PER_2H {
        5
    } else if seconds <= SECONDS_PER_12H {
        6
    } else if seconds <= SECONDS_PER_DAY {
        7
    } else {
        10
    }
}

/// The raw interest on one token over `seconds` at the raw yearly rate
/// `rate`, compounded continuously. It is computed for rates up to two
/// and times up to a week.
pub open spec fn compound_spec(rate: nat, seconds: int) -> Result<nat, ErrorCode> {
    if rate > 2 * one() || seconds <= 0 || seconds > SECONDS_PER_WEEK {
        Err(ErrorCode::InvalidParameter)
    } else {
        Ok(expm1_raw(rate * (seconds as nat) / (SECONDS_PER_YEAR as nat), terms_for(seconds)))
    }
}

/// Whether the interest at the raw rate `compound` over `seconds` can
/// be added to the state.
pub open spec fn interest_fits(
    before: ReserveState,
    compound: nat,
    fee_bps: u16,
    seconds: int,
) -> bool {
    let interest = before.outstanding_debt@ * compound / one();
    let fee = interest * bps_raw(fee_bps) / one();
    &&& before.outstanding_debt@ * compound <= max_raw()
    &&& interest * bps_raw(fee_bps) <= max_raw()
    &&& before.outstanding_debt@ + interest <= max_raw()
    &&& before.uncollected_fees@ + fee <= max_raw()
    &&& i64::MIN <= before.accrued_until + seconds <= i64::MAX
}

/// The state with the interest at the raw rate `compound` over
/// `seconds` added.
pub open spec fn with_interest(
    before: ReserveState,
    compound: nat,
    fee_bps: u16,
    seconds: int,
) -> ReserveState {
    let interest = before.outstanding_debt@ * compound / one();
    let fee = interest * bps_raw(fee_bps) / one();
    ReserveState {
        outstanding_debt: Number::from_raw(before.outstanding_debt@ + interest),
        uncollected_fees: Number::from_raw(before.uncollected_fees@ + fee),
        accrued_until: (before.accrued_until + seconds) as i64,
        ..before
    }
}

/// The time over which a call accrues interest when the state is
/// `behind` seconds behind.
pub open spec fn time_to_accrue(behind: int) -> int {
    if behind <= MAX_ACCRUAL_SECONDS {
        behind
    } else {
        MAX_ACCRUAL_SECONDS as int
    }
}

/// The raw rate at which a call compounds interest up to `target_time`:
/// none where no time has passed; `InvalidParameter` where the target
/// lies before the time accrued until.
pub open spec fn accrual_rate(
    config: ReserveConfig,
    state: ReserveState,
    vault_total: u64,
    target_time: i64,
) -> Result<Option<nat>, ErrorCode> {
    let behind = target_time - state.accrued_until;
    if behind < 0 {
        Err(ErrorCode::InvalidParameter)
    } else if behind == 0 {
        Ok(None)
    } else {
        match interest_rate_spec(config, state.outstanding_debt@, vault_total) {
            Err(e) => Err(e),
            Ok(rate) => match compound_spec(rate, time_to_accrue(behind)) {
                Err(e) => Err(e),
                Ok(compound) => Ok(Some(compound)),
            },
        }
    }
}

/// Whether a call that accrues up to `target_time` brings the state up
/// to date.
pub open spec fn completion_of(state: ReserveState, target_time: i64) -> JobCompletion {
    if target_time - state.accrued_until <= MAX_ACCRUAL_SECONDS {
        JobCompletion::Full
    } else {
        JobCompletion::Partial
    }
}

/// What accruing interest up to `target_time` gives: the new state and
/// whether it is up to date, or why nothing was accrued.
pub open spec fn accrued(
    config: ReserveConfig,
    state: ReserveState,
    vault_total: u64,
    target_time: i64,
) -> Result<(ReserveState, JobCompletion), ErrorCode> {
    match accrual_rate(config, state, vault_total, target_time) {
        Err(e) => Err(e),
        Ok(None) => Ok((state, JobCompletion::Full)),
        Ok(Some(compound)) => {
            let seconds = time_to_accrue(target_time - state.accrued_until);
            if interest_fits(state, compound, config.manage_fee_rate, seconds) {
                Ok(
                    (
                        with_interest(state, compound, config.manage_fee_rate, seconds),
                        completion_of(state, target_time),
                    ),
                )
            } else {
                Err(ErrorCode::Overflow)
            }
        },
    }
}

/// The share lent out is at most everything.
proof fn lemma_utilization_bound(debt: nat, vault_total: u64)
    requires
        debt + vault_total * one() > 0,
    ensures
        utilization_spec(debt, vault_total) <= one(),
{
    let total = debt + (vault_total as nat) * one();
    assert(debt * one() / total <= one()) by (nonlinear_arith)
        requires
            total > 0,
            debt <= total,
            one() == 1_000_000_000_000_000,
    ;
}

/// The value at `x` of the line from `(x0, y0)` to `(x1, y1)`.
fn interpolate(x: Number, x0: Number, x1: Number, y0: Number, y1: Number) -> (r: Number)
    requires
        x0@ <= x@ <= x1@,
        x0@ < x1@,
        y0@ <= y1@,
        x1@ <= 10_000_000_000_000_000,
        y1@ <= 10_000_000_000_000_000,
    ensures
        r@ == interpolate_spec(x@, x0@, x1@, y0@, y1@),
{
    let dx = x.sub(x0);
    let dy = y1.sub(y0);
    proof {
        assert(dx@ * dy@ <= 100_000_000_000_000_000_000_000_000_000_000) by (nonlinear_arith)
            requires
                dx@ <= 10_000_000_000_000_000,
                dy@ <= 10_000_000_000_000_000,
        ;
    }
    let rise = dx.mul(dy);
    proof {
        assert(rise@ * one() <= max_raw()) by (nonlinear_arith)
            requires
                rise@ <= 100_000_000_000_000_000_000_000_000_000_000,
                one() == 1_000_000_000_000_000,
                max_raw() == 0xffff_ffff_ffff_ffff_ffff_ffff_ffff_ffff_ffff_ffff_ffff_ffffnat,
        ;
    }
    let width = x1.sub(x0);
    let slope = rise.div(width);
    proof {
        assert(slope@ <= rise@ * one()) by (nonlinear_arith)
            requires
                width@ > 0,
                slope@ == rise@ * one() / width@,
        ;
    }
    y0.add(slope)
}

impl Reserve {
    /// The yearly interest rate of a reserve that is owed
    /// `outstanding_debt` and holds `vault_total` tokens.
    pub fn interest_rate(&self, outstanding_debt: Number, vault_total: u64) -> (r: Result<
        Number,
        ErrorCode,
    >)
        ensures
            match interest_rate_spec(self.config, outstanding_debt@, vault_total) {
                Ok(rate) => r is Ok && r->Ok_0@ == rate,
                Err(e) => r == Err::<Number, ErrorCode>(e),
            },
    {
        let borrow_1 = Number::from_bps(self.config.borrow_rate_1);
        if vault_total == 0 && outstanding_debt.is_zero() {
            return Ok(borrow_1);
        }
        let total = match outstanding_debt.checked_add(Number::from_u64(vault_total)) {
            None => {
                proof {
                    outstanding_debt.lemma_bounded();
                }
                return Err(ErrorCode::Overflow);
            },
            Some(t) => t,
        };
        let util_rate = match outstanding_debt.checked_div(total) {
            None => {
                return Err(ErrorCode::Overflow);
            },
            Some(u) => u,
        };
        proof {
            lemma_utilization_bound(outstanding_debt@, vault_total);
        }
        let util_1 = Number::from_bps(self.config.utilization_rate_1);
        if util_rate.le(&util_1) {
            let borrow_0 = Number::from_bps(self.config.borrow_rate_0);
            if util_1.is_zero() || borrow_1.lt(&borrow_0) {
                return Err(ErrorCode::InvalidParameter);
            }
            return Ok(interpolate(util_rate, Number::zero(), util_1, borrow_0, borrow_1));
        }
        let util_2 = Number::from_bps(self.config.utilization_rate_2);
        let borrow_2 = Number::from_bps(self.config.borrow_rate_2);
        if util_rate.le(&util_2) {
            if borrow_2.lt(&borrow_1) {
                return Err(ErrorCode::InvalidParameter);
            }
            return Ok(interpolate(util_rate, util_1, util_2, borrow_1, borrow_2));
        }
        let borrow_3 = Number::from_bps(self.config.borrow_rate_3);
        if util_rate.lt(&Number::one()) {
            if borrow_3.lt(&borrow_2) {
                return Err(ErrorCode::InvalidParameter);
            }
            return Ok(interpolate(util_rate, util_2, Number::one(), borrow_2, borrow_3));
        }
        Ok(borrow_3)
    }

    /// The interest on one token over `seconds` at the yearly rate
    /// `rate`.
    pub fn compound_interest(rate: Number, seconds: i64) -> (r: Result<Number, ErrorCode>)
        ensures
            match compound_spec(rate@, seconds as int) {
                Ok(compound) => r is Ok && r->Ok_0@ == compound,
                Err(e) => r == Err::<Number, ErrorCode>(e),
            },
    {
        if seconds <= 0 || seconds > SECONDS_PER_WEEK {
            return Err(ErrorCode::InvalidParameter);
        }
        if Number::from_raw_u64(2_000_000_000_000_000).lt(&rate) {
            return Err(ErrorCode::InvalidParameter);
        }
        let terms: usize = if seconds <= SECONDS_PER_2H {
            5
        } else if seconds <= SECONDS_PER_12H {
            6
        } else if seconds <= SECONDS_PER_DAY {
            7
        } else {
            10
        };
        proof {
            assert(rate@ * (seconds as u64) <= max_raw()) by (nonlinear_arith)
                requires
                    rate@ <= 2_000_000_000_000_000,
                    0 < seconds <= 604_800,
                    max_raw() == 0xffff_ffff_ffff_ffff_ffff_ffff_ffff_ffff_ffff_ffff_ffff_ffffnat,
            ;
            assert(rate@ * (seconds as u64) / 31_536_000 <= one()) by (nonlinear_arith)
                requires
                    rate@ <= 2_000_000_000_000_000,
                    0 < seconds <= 604_800,
                    one() == 1_000_000_000_000_000,
            ;
        }
        let x = rate.mul_int(seconds as u64).div_int(SECONDS_PER_YEAR as u64);
        Ok(x.expm1_approx(terms))
    }

    /// Adds the interest over `seconds` at the rate `compound_rate` to
    /// what is owed, and the share of it that is a fee to the fees to
    /// collect. Where a sum or a product does not fit, nothing changes.
    pub fn apply_interest(&mut self, compound_rate: Number, seconds: i64) -> (r: Result<
        (),
        ErrorCode,
    >)
        ensures
            old(self).same_but_state_value(final(self)),
            interest_fits(
                old(self).state_spec(),
                compound_rate@,
                old(self).config.manage_fee_rate,
                seconds as int,
            ) ==> r is Ok && final(self).state_spec() == with_interest(
                old(self).state_spec(),
                compound_rate@,
                old(self).config.manage_fee_rate,
                seconds as int,
            ),
            !interest_fits(
                old(self).state_spec(),
                compound_rate@,
                old(self).config.manage_fee_rate,
                seconds as int,
            ) ==> r == Err::<(), ErrorCode>(ErrorCode::Overflow) && final(self).state_spec()
                == old(self).state_spec(),
    {
        let state = *self.state.get_stale();
        let interest_fee_rate = Number::from_bps(self.config.manage_fee_rate);
        let new_interest_accrued = match state.outstanding_debt.checked_mul(compound_rate) {
            None => {
                return Err(ErrorCode::Overflow);
            },
            Some(v) => v,
        };
        let fee_to_collect = match new_interest_accrued.checked_mul(interest_fee_rate) {
            None => {
                return Err(ErrorCode::Overflow);
            },
            Some(v) => v,
        };
        let outstanding_debt = match state.outstanding_debt.checked_add(new_interest_accrued) {
            None => {
                return Err(ErrorCode::Overflow);
            },
            Some(v) => v,
        };
        let uncollected_fees = match state.uncollected_fees.checked_add(fee_to_collect) {
            None => {
                return Err(ErrorCode::Overflow);
            },
            Some(v) => v,
        };
        let accrued_until = match state.accrued_until.checked_add(seconds) {
            None => {
                return Err(ErrorCode::Overflow);
            },
            Some(v) => v,
        };
        proof {
            Number::lemma_from_raw(outstanding_debt@);
            Number::lemma_from_raw(uncollected_fees@);
        }
        self.state.set_stale(
            ReserveState { outstanding_debt, uncollected_fees, accrued_until, ..state },
        );
        Ok(())
    }

    /// Accrues interest up to `target_time`, a week at the most in one
    /// call. Where that brings the state up to date, the state is marked
    /// as fresh at `target_slot` and the job is complete; where a week
    /// was not enough, the state's freshness stays as it was and the job
    /// is partly done. On an error nothing changes.
    pub fn try_accrue_interest(
        &mut self,
        vault_total: u64,
        target_time: i64,
        target_slot: u64,
    ) -> (r: Result<JobCompletion, ErrorCode>)
        ensures
            match accrued(old(self).config, old(self).state_spec(), vault_total, target_time) {
                Err(e) => r == Err::<JobCompletion, ErrorCode>(e),
                Ok((state, completion)) => r == Ok::<JobCompletion, ErrorCode>(completion)
                    && final(self).state_spec() == state,
            },
            old(self).same_but_state(final(self)),
            r is Err ==> final(self).state_spec() == old(self).state_spec(),
            r != Ok::<JobCompletion, ErrorCode>(JobCompletion::Full) ==> old(
                self,
            ).same_but_state_value(final(self)),
            r == Ok::<JobCompletion, ErrorCode>(JobCompletion::Full) ==> final(self).state.as_of()
                == target_slot && !final(self).state.is_invalidated(),
    {
        let state = *self.state.get_stale();
        if target_time < state.accrued_until {
            return Err(ErrorCode::InvalidParameter);
        }
        let whole = match target_time.checked_sub(state.accrued_until) {
            None => false,
            Some(behind) => behind <= MAX_ACCRUAL_SECONDS,
        };
        let time_to_accrue: i64 = if whole {
            target_time - state.accrued_until
        } else {
            MAX_ACCRUAL_SECONDS
        };
        if time_to_accrue > 0 {
            let interest_rate = match self.interest_rate(state.outstanding_debt, vault_total) {
                Err(e) => {
                    return Err(e);
                },
                Ok(rate) => rate,
            };
            let compound_rate = match Self::compound_interest(interest_rate, time_to_accrue) {
                Err(e) => {
                    return Err(e);
                },
                Ok(rate) => rate,
            };
            match self.apply_interest(compound_rate, time_to_accrue) {
                Err(e) => {
                    return Err(e);
                },
                Ok(()) => {},
            }
        }
        if whole {
            self.state.refresh_to(target_slot);
            Ok(JobCompletion::Full)
        } else {
            Ok(JobCompletion::Partial)
        }
    }
}

} // verus!
