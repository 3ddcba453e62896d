use honey::cache::Cache;
use honey::errors::ErrorCode;
use honey::keys::StoredPubkey;
use honey::number::Number;
use honey::interest::SECONDS_PER_WEEK;
use honey::reserve::{Reserve, ReserveConfig, ReserveState};
use honey::utils::JobCompletion;

fn config() -> ReserveConfig {
    ReserveConfig {
        utilization_rate_1: 8500,
        utilization_rate_2: 9500,
        borrow_rate_0: 50,
        borrow_rate_1: 600,
        borrow_rate_2: 4000,
        borrow_rate_3: 16000,
        min_collateral_ratio: 12500,
        liquidation_premium: 500,
        manage_fee_collection_threshold: 10,
        manage_fee_rate: 1000,
        loan_origination_fee: 10,
        protocol_fee_rate: 25,
    }
}

fn reserve() -> Reserve {
    let key = StoredPubkey::zeroed();
    Reserve {
        version: 0,
        index: 0,
        exponent: 0,
        market: key,
        switchboard_price_aggregator: key,
        token_mint: key,
        deposit_note_mint: key,
        loan_note_mint: key,
        vault: key,
        fee_note_vault: key,
        protocol_fee_note_vault: key,
        config: config(),
        state: Cache::new(ReserveState::new(0), 0),
    }
}

fn to_raw(n: jet_proto_math::Number) -> Number {
    Number::from_decimal(n.as_u64(-15) as u128, -15)
}

#[test]
fn fees_are_rounded_up() {
    let r = reserve();
    assert_eq!(r.borrow_fee(0), 0);
    assert_eq!(r.borrow_fee(1000), 1);
    assert_eq!(r.borrow_fee(1001), 2);
    assert_eq!(r.borrow_fee(1_000_000), 1000);
    assert_eq!(r.protocol_fee(1000), 3);
    assert_eq!(r.protocol_fee(400), 1);
    assert_eq!(r.checked_borrow_fee(u64::MAX), Ok(18_446_744_073_709_552));
    let mut greedy = reserve();
    greedy.config.loan_origination_fee = 20000;
    greedy.config.protocol_fee_rate = 20000;
    assert_eq!(greedy.checked_borrow_fee(u64::MAX), Err(ErrorCode::Overflow));
    assert_eq!(greedy.checked_protocol_fee(u64::MAX), Err(ErrorCode::Overflow));
    assert_eq!(greedy.checked_borrow_fee(7), Ok(14));
}

#[test]
fn amounts_follow_the_exponent() {
    let mut r = reserve();
    assert_eq!(r.amount(5), Number::from_u64(5));
    r.exponent = -6;
    assert_eq!(r.amount(5_000_000), Number::from_u64(5));
    assert_eq!(r.checked_amount(1), Some(Number::from_decimal(1, -6)));
    r.exponent = -32;
    assert_eq!(r.checked_amount(1), None);
    r.exponent = 2;
    assert_eq!(r.checked_amount(1), None);
}

#[test]
fn deposits_and_withdrawals_are_counted() {
    let mut r = reserve();
    r.deposit(1000, 900);
    assert_eq!(r.total_deposits(), 1000);
    assert_eq!(r.total_deposit_notes(), 900);
    r.withdraw(400, 300);
    assert_eq!(r.total_deposits(), 600);
    assert_eq!(r.total_deposit_notes(), 600);
    assert_eq!(r.try_deposit(u64::MAX, 0), Err(ErrorCode::Overflow));
    assert_eq!(r.try_deposit(0, u64::MAX), Err(ErrorCode::Overflow));
    assert_eq!(r.total_deposits(), 600);
    assert_eq!(r.try_deposit(u64::MAX - 600, 1), Ok(()));
    assert_eq!(r.total_deposits(), u64::MAX);
}

#[test]
fn loans_and_repayments_are_counted() {
    let mut r = reserve();
    r.deposit(1000, 1000);
    r.borrow(0, 500, 480, 5, 2);
    assert_eq!(r.total_deposits(), 500);
    assert_eq!(r.total_loan_notes(), 480);
    assert_eq!(r.unwrap_outstanding_debt(0), Number::from_u64(507));
    assert_eq!(r.state.get_stale().uncollected_fees, Number::from_u64(5));
    assert_eq!(r.state.get_stale().uncollected_protocol_fees, Number::from_u64(2));
    r.repay(0, 200, 190);
    assert_eq!(r.total_deposits(), 700);
    assert_eq!(r.total_loan_notes(), 290);
    assert_eq!(r.unwrap_outstanding_debt(0), Number::from_u64(307));
    r.repay(0, 400, 500);
    assert_eq!(r.total_loan_notes(), 0);
    assert_eq!(r.unwrap_outstanding_debt(0), Number::zero());
    assert_eq!(r.total_deposits(), 1100);
}

#[test]
fn loans_that_cannot_be_recorded_change_nothing() {
    let mut r = reserve();
    r.deposit(100, 100);
    assert_eq!(r.try_borrow(1, 10, 10, 0, 0), Err(ErrorCode::StaleData));
    assert_eq!(r.try_borrow(0, 101, 10, 0, 0), Err(ErrorCode::Overflow));
    assert_eq!(r.try_repay(1, 10, 10), Err(ErrorCode::StaleData));
    assert_eq!(r.try_repay(0, u64::MAX, 10), Err(ErrorCode::Overflow));
    assert_eq!(r.total_deposits(), 100);
    assert_eq!(r.try_borrow(0, 100, 10, 1, 1), Ok(()));
    assert_eq!(r.try_borrow(0, 0, u64::MAX, 0, 0), Err(ErrorCode::Overflow));
    assert_eq!(r.total_loan_notes(), 10);
    assert_eq!(r.try_repay(0, 10, 10), Ok(()));
    assert_eq!(r.total_loan_notes(), 0);
}

#[test]
fn exchange_rates_start_at_one() {
    let mut r = reserve();
    assert_eq!(r.deposit_note_exchange_rate(0, 0, 0), Ok(Number::one()));
    assert_eq!(r.loan_note_exchange_rate(0, 0), Ok(Number::one()));
    r.deposit(1000, 1000);
    assert_eq!(r.deposit_note_exchange_rate(0, 1000, 1000), Ok(Number::one()));
    r.borrow(0, 500, 500, 0, 0);
    assert_eq!(r.deposit_note_exchange_rate(0, 500, 1000), Ok(Number::one()));
    assert_eq!(r.loan_note_exchange_rate(0, 500), Ok(Number::one()));
    assert_eq!(r.loan_note_exchange_rate(0, 250), Ok(Number::from_u64(2)));
    assert_eq!(r.deposit_note_exchange_rate(0, 1000, 1000), Ok(Number::from_decimal(15, -1)));
}

#[test]
fn exchange_rates_leave_out_uncollected_fees() {
    let mut r = reserve();
    r.deposit(1000, 1000);
    r.borrow(0, 500, 600, 60, 40);
    assert_eq!(r.unwrap_outstanding_debt(0), Number::from_u64(600));
    assert_eq!(r.deposit_note_exchange_rate(0, 500, 1000), Ok(Number::one()));
    assert_eq!(r.loan_note_exchange_rate(0, 600), Ok(Number::one()));
    r.repay(0, 600, 600);
    assert_eq!(r.deposit_note_exchange_rate(0, 50, 1000), Err(ErrorCode::Overflow));
}

#[test]
fn interest_curve_has_three_regimes() {
    let r = reserve();
    assert_eq!(r.interest_rate(Number::zero(), 0), Ok(Number::from_bps(600)));
    assert_eq!(r.interest_rate(Number::zero(), 100), Ok(Number::from_bps(50)));
    assert_eq!(
        r.interest_rate(Number::from_u64(50), 50),
        Ok(Number::from_raw_u64(37_352_941_176_470))
    );
    assert_eq!(r.interest_rate(Number::from_u64(85), 15), Ok(Number::from_bps(600)));
    assert_eq!(r.interest_rate(Number::from_u64(90), 10), Ok(Number::from_bps(2300)));
    assert_eq!(r.interest_rate(Number::from_u64(95), 5), Ok(Number::from_bps(4000)));
    assert_eq!(r.interest_rate(Number::from_u64(975), 25), Ok(Number::from_bps(10000)));
    assert_eq!(r.interest_rate(Number::from_u64(100), 0), Ok(Number::from_bps(16000)));
}

#[test]
fn interest_curve_must_rise_and_have_width() {
    let mut r = reserve();
    r.config.borrow_rate_0 = 700;
    assert_eq!(r.interest_rate(Number::from_u64(50), 50), Err(ErrorCode::InvalidParameter));
    r.config = config();
    r.config.borrow_rate_2 = 100;
    assert_eq!(r.interest_rate(Number::from_u64(90), 10), Err(ErrorCode::InvalidParameter));
    r.config = config();
    r.config.borrow_rate_3 = 100;
    assert_eq!(r.interest_rate(Number::from_u64(975), 25), Err(ErrorCode::InvalidParameter));
    r.config = config();
    r.config.utilization_rate_1 = 0;
    assert_eq!(r.interest_rate(Number::zero(), 5), Err(ErrorCode::InvalidParameter));
    assert_eq!(r.interest_rate(Number::max_value(), 5), Err(ErrorCode::Overflow));
}

#[test]
fn compound_interest_follows_the_series() {
    let rate = Number::from_bps(1000);
    let x = jet_proto_math::Number::from_decimal(1, -3);
    assert_eq!(
        Reserve::compound_interest(rate, 315_360),
        Ok(to_raw(jet_proto_math::expm1_approx(x, 10)))
    );
    let hour = jet_proto_math::Number::from_bps(1000) * 3600u64 / 31_536_000u64;
    assert_eq!(
        Reserve::compound_interest(rate, 3600),
        Ok(to_raw(jet_proto_math::expm1_approx(hour, 5)))
    );
    let half_day = jet_proto_math::Number::from_bps(1000) * 43_200u64 / 31_536_000u64;
    assert_eq!(
        Reserve::compound_interest(rate, 43_200),
        Ok(to_raw(jet_proto_math::expm1_approx(half_day, 6)))
    );
    let day = jet_proto_math::Number::from_bps(1000) * 86_400u64 / 31_536_000u64;
    assert_eq!(
        Reserve::compound_interest(rate, 86_400),
        Ok(to_raw(jet_proto_math::expm1_approx(day, 7)))
    );
    assert_eq!(Reserve::compound_interest(rate, 0), Err(ErrorCode::InvalidParameter));
    assert_eq!(
        Reserve::compound_interest(rate, SECONDS_PER_WEEK + 1),
        Err(ErrorCode::InvalidParameter)
    );
    assert_eq!(
        Reserve::compound_interest(Number::from_bps(20001), 10),
        Err(ErrorCode::InvalidParameter)
    );
    assert!(Reserve::compound_interest(Number::from_bps(20000), SECONDS_PER_WEEK).is_ok());
}

#[test]
fn interest_is_added_to_the_debt_and_a_share_to_the_fees() {
    let mut r = reserve();
    r.deposit(1000, 1000);
    r.borrow(0, 1000, 1000, 0, 0);
    assert_eq!(r.apply_interest(Number::from_decimal(1, -1), 60), Ok(()));
    assert_eq!(r.state.get_stale().outstanding_debt, Number::from_u64(1100));
    assert_eq!(r.state.get_stale().uncollected_fees, Number::from_u64(10));
    assert_eq!(r.state.get_stale().accrued_until, 60);
    assert_eq!(r.apply_interest(Number::max_value(), 60), Err(ErrorCode::Overflow));
    assert_eq!(r.apply_interest(Number::one(), i64::MAX), Err(ErrorCode::Overflow));
    assert_eq!(r.state.get_stale().outstanding_debt, Number::from_u64(1100));
    assert_eq!(r.state.get_stale().accrued_until, 60);
}

#[test]
fn accrual_catches_up_a_week_at_a_time() {
    let mut r = reserve();
    r.deposit(1000, 1000);
    r.borrow(0, 500, 500, 0, 0);
    let target = 3 * SECONDS_PER_WEEK;
    assert_eq!(r.try_accrue_interest(500, target, 9), Ok(JobCompletion::Partial));
    assert_eq!(r.state.get_stale().accrued_until, SECONDS_PER_WEEK);
    assert!(!r.state.fresh_at(9));
    assert_eq!(r.try_accrue_interest(500, target, 9), Ok(JobCompletion::Partial));
    assert!(!r.state.fresh_at(9));
    assert_eq!(r.try_accrue_interest(500, target, 9), Ok(JobCompletion::Full));
    assert_eq!(r.state.get_stale().accrued_until, target);
    assert!(r.state.fresh_at(9));
    assert!(Number::from_u64(500).lt(&r.unwrap_outstanding_debt(9)));
    let debt = r.unwrap_outstanding_debt(9);
    assert_eq!(r.try_accrue_interest(500, target, 10), Ok(JobCompletion::Full));
    assert_eq!(r.unwrap_outstanding_debt(10), debt);
    assert_eq!(r.try_accrue_interest(500, target - 1, 11), Err(ErrorCode::InvalidParameter));
    assert!(r.state.fresh_at(10));
}

#[test]
fn one_step_of_accrual_is_exact() {
    let mut r = reserve();
    r.deposit(1000, 1000);
    r.borrow(0, 500, 500, 0, 0);
    let rate = r.interest_rate(Number::from_u64(500), 500).unwrap();
    let compound = Reserve::compound_interest(rate, 86_400).unwrap();
    let interest = Number::from_u64(500).mul(compound);
    assert_eq!(r.try_accrue_interest(500, 86_400, 3), Ok(JobCompletion::Full));
    assert_eq!(r.unwrap_outstanding_debt(3), Number::from_u64(500).add(interest));
    assert_eq!(r.state.get_stale().uncollected_fees, interest.mul(Number::from_bps(1000)));
}

#[test]
fn fees_are_collected_once_they_reach_the_threshold() {
    let mut r = reserve();
    r.deposit(1000, 1000);
    r.borrow(0, 500, 500, 9, 30);
    let rate = Number::from_u64(2);
    assert_eq!(r.collect_accrued_fees(0, rate), Ok(0));
    assert_eq!(r.state.get_stale().uncollected_fees, Number::from_u64(9));
    assert_eq!(r.collect_accrued_protocol_fees(0, rate), Ok(15));
    assert_eq!(r.state.get_stale().uncollected_protocol_fees, Number::zero());
    assert_eq!(r.total_deposit_notes(), 1015);
    r.borrow(0, 0, 0, 2, 0);
    assert_eq!(r.collect_accrued_fees(0, rate), Ok(5));
    assert_eq!(r.state.get_stale().uncollected_fees, Number::zero());
    assert_eq!(r.total_deposit_notes(), 1020);
    r.borrow(0, 0, 0, 20, 20);
    assert_eq!(r.collect_accrued_fees(0, Number::zero()), Err(ErrorCode::Overflow));
    assert_eq!(r.collect_accrued_protocol_fees(0, Number::zero()), Err(ErrorCode::Overflow));
    assert_eq!(r.state.get_stale().uncollected_fees, Number::from_u64(20));
}
