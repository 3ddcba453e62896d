use honey::bid::Bid;
use honey::common::Amount;
use honey::errors::ErrorCode;
use honey::instructions::borrow::BorrowOutcome;
use honey::instructions::deposit_tokens::DepositOutcome;
use honey::instructions::execute_liquidate_bid::{split_bid, LiquidationOutcome, Payoff};
use honey::instructions::init_reserve::ReserveAccounts;
use honey::instructions::refresh_reserve::RefreshOutcome;
use honey::keys::StoredPubkey;
use honey::market::{MarketOracle, MarketReserves};
use honey::number::Number;
use honey::obligation::Obligation;
use honey::interest::SECONDS_PER_WEEK;
use honey::reserve::{Reserve, ReserveConfig};
use honey::utils::JobCompletion;

fn key(n: u8) -> StoredPubkey {
    StoredPubkey::new([n; 32])
}

fn config() -> ReserveConfig {
    ReserveConfig {
        utilization_rate_1: 8500,
        utilization_rate_2: 9500,
        borrow_rate_0: 50,
        borrow_rate_1: 600,
        borrow_rate_2: 4000,
        borrow_rate_3: 16000,
        min_collateral_ratio: 12500,
        liquidation_premium: 500,
        manage_fee_collection_threshold: 10,
        manage_fee_rate: 1000,
        loan_origination_fee: 0,
        protocol_fee_rate: 0,
    }
}

fn accounts() -> ReserveAccounts {
    ReserveAccounts {
        reserve: key(1),
        market: key(2),
        switchboard_price_aggregator: key(3),
        vault: key(4),
        fee_note_vault: key(5),
        protocol_fee_note_vault: key(6),
        token_mint: key(7),
        deposit_note_mint: key(8),
        loan_note_mint: key(9),
    }
}

struct World {
    market: MarketReserves,
    oracle: MarketOracle,
    reserve: Reserve,
    obligation: Obligation,
    loan_account: StoredPubkey,
    nft: StoredPubkey,
}

/// A market with one reserve of a token priced at one, refreshed at
/// time 100 and slot 5, with 1,000 tokens deposited, and an obligation
/// with one collateral item and a loan account.
fn world() -> World {
    let mut market = MarketReserves::new();
    let mut oracle = MarketOracle { price: Number::zero() };
    let mut reserve =
        honey::instructions::init_reserve::handler(&mut market, &accounts(), 0, config(), 100, 5)
            .unwrap();
    let refreshed = honey::instructions::refresh_reserve::handler(
        &mut market,
        &mut oracle,
        &mut reserve,
        1000,
        0,
        1,
        0,
        100,
        5,
    );
    assert_eq!(
        refreshed,
        Ok(RefreshOutcome {
            completion: JobCompletion::Full,
            notes_to_mint: 0,
            notes_to_mint_protocol: 0
        })
    );
    let deposited = honey::instructions::deposit_tokens::handler(
        &market,
        &mut reserve,
        5,
        Amount::from_tokens(1000),
    );
    assert_eq!(deposited, Ok(DepositOutcome { token_amount: 1000, note_amount: 1000 }));
    let mut obligation = honey::instructions::init_obligation::handler(key(2), key(20));
    let loan_account = key(21);
    let nft = key(22);
    obligation.register_nft(nft).unwrap();
    assert_eq!(
        honey::instructions::init_loan_account::handler(&mut obligation, &reserve, &loan_account),
        Ok(())
    );
    World { market, oracle, reserve, obligation, loan_account, nft }
}

fn borrow(w: &mut World, nft_price: i128, amount: Amount) -> Result<BorrowOutcome, ErrorCode> {
    honey::instructions::borrow::handler(
        &w.market,
        &mut w.oracle,
        &mut w.reserve,
        &mut w.obligation,
        &w.loan_account,
        nft_price,
        0,
        5,
        amount,
    )
}

fn bid(limit: u64) -> Bid {
    let mut bid = Bid::default();
    bid.bid_mint = key(7);
    bid.bid_limit = limit;
    bid
}

fn execute(
    w: &mut World,
    bid: &Bid,
    escrow: u64,
    notes: u64,
    force: bool,
) -> Result<LiquidationOutcome, ErrorCode> {
    honey::instructions::execute_liquidate_bid::handler(
        &w.market,
        &w.oracle,
        &mut w.reserve,
        &mut w.obligation,
        bid,
        &w.nft,
        &w.loan_account,
        escrow,
        notes,
        force,
        5,
    )
}

#[test]
fn new_reserve_is_registered_with_the_market() {
    let mut market = MarketReserves::new();
    let reserve =
        honey::instructions::init_reserve::handler(&mut market, &accounts(), 6, config(), 100, 5)
            .unwrap();
    assert_eq!(reserve.index, 0);
    assert_eq!(reserve.exponent, -6);
    assert_eq!(reserve.token_mint.to_bytes(), [7u8; 32]);
    assert_eq!(reserve.vault.to_bytes(), [4u8; 32]);
    assert_eq!(reserve.state.get_stale().accrued_until, 100);
    assert!(reserve.state.fresh_at(5));
    assert_eq!(market.len(), 1);
    assert_eq!(market.get(0).reserve.to_bytes(), [1u8; 32]);
    let second = honey::instructions::init_reserve::register_with_market(
        &mut market,
        &accounts(),
        9,
        config(),
        100,
        5,
    )
    .unwrap();
    assert_eq!(second.index, 1);
    for _ in 2..32 {
        honey::instructions::init_reserve::handler(&mut market, &accounts(), 0, config(), 0, 0)
            .unwrap();
    }
    assert_eq!(
        honey::instructions::init_reserve::handler(&mut market, &accounts(), 0, config(), 0, 0)
            .err(),
        Some(ErrorCode::NoFreeReserves)
    );
}

#[test]
fn deposit_at_even_rates_mints_as_many_notes_as_tokens() {
    let w = world();
    assert_eq!(w.reserve.total_deposits(), 1000);
    assert_eq!(w.reserve.total_deposit_notes(), 1000);
    assert_eq!(w.market.get_cached(0, 5).deposit_note_exchange_rate, Number::one());
    assert_eq!(w.market.get_cached(0, 5).loan_note_exchange_rate, Number::one());
    assert_eq!(w.market.get_cached(0, 5).price, Number::one());
    assert_eq!(w.market.get_cached(0, 5).min_collateral_ratio, Number::from_bps(12500));
    assert_eq!(w.market.get_cached(0, 5).liquidation_bonus, 500);
    assert_eq!(w.oracle.price, Number::from_u64(1000));
}

#[test]
fn deposit_fails_without_changing_the_reserve() {
    let mut w = world();
    let deposit = honey::instructions::deposit_tokens::handler;
    assert_eq!(
        deposit(&w.market, &mut w.reserve, 6, Amount::from_tokens(1)),
        Err(ErrorCode::StaleData)
    );
    assert_eq!(
        deposit(&w.market, &mut w.reserve, 5, Amount::from_loan_notes(1)),
        Err(ErrorCode::InvalidUnits)
    );
    assert_eq!(
        deposit(&w.market, &mut w.reserve, 5, Amount::from_tokens(u64::MAX)),
        Err(ErrorCode::Overflow)
    );
    assert_eq!(w.reserve.total_deposits(), 1000);
    assert_eq!(
        deposit(&w.market, &mut w.reserve, 5, Amount::from_deposit_notes(7)),
        Ok(DepositOutcome { token_amount: 7, note_amount: 7 })
    );
    assert_eq!(w.reserve.total_deposits(), 1007);
}

#[test]
fn eight_notes_can_be_borrowed_against_ten_and_nine_cannot() {
    let mut w = world();
    assert_eq!(
        borrow(&mut w, 10, Amount::from_tokens(9)),
        Err(ErrorCode::InsufficientCollateral)
    );
    assert_eq!(w.reserve.total_deposits(), 1000);
    assert_eq!(w.reserve.total_loan_notes(), 0);
    assert!(w.obligation.loans().position(&w.loan_account).unwrap().amount.is_zero());
    assert_eq!(w.oracle.price, Number::from_u64(1000));

    assert_eq!(
        borrow(&mut w, 10, Amount::from_tokens(8)),
        Ok(BorrowOutcome { requested_tokens: 8, new_notes: 8, fees: 0, protocol_fees: 0 })
    );
    assert_eq!(w.reserve.total_deposits(), 992);
    assert_eq!(w.reserve.total_loan_notes(), 8);
    assert_eq!(w.reserve.unwrap_outstanding_debt(5), Number::from_u64(8));
    assert_eq!(
        w.obligation.loans().position(&w.loan_account).unwrap().amount,
        Number::from_u64(8)
    );
    assert_eq!(w.oracle.price, Number::from_u64(10));
    assert!(w.obligation.is_healthy(&w.market, 5));
    assert_eq!(
        borrow(&mut w, 10, Amount::from_tokens(1)),
        Err(ErrorCode::InsufficientCollateral)
    );
    assert_eq!(w.reserve.total_loan_notes(), 8);
}

#[test]
fn fees_are_owed_on_top_of_the_tokens_borrowed() {
    let mut w = world();
    w.reserve.config.loan_origination_fee = 100;
    w.reserve.config.protocol_fee_rate = 50;
    assert_eq!(
        borrow(&mut w, 1000, Amount::from_tokens(250)),
        Ok(BorrowOutcome { requested_tokens: 250, new_notes: 255, fees: 3, protocol_fees: 2 })
    );
    assert_eq!(w.reserve.total_deposits(), 750);
    assert_eq!(w.reserve.unwrap_outstanding_debt(5), Number::from_u64(255));
    assert_eq!(w.reserve.state.get_stale().uncollected_fees, Number::from_u64(3));
    assert_eq!(w.reserve.state.get_stale().uncollected_protocol_fees, Number::from_u64(2));
}

#[test]
fn borrow_fails_in_the_order_of_its_checks() {
    let mut w = world();
    assert_eq!(borrow(&mut w, -1, Amount::from_tokens(1)), Err(ErrorCode::InvalidOraclePrice));
    let stale = honey::instructions::borrow::handler(
        &w.market,
        &mut w.oracle,
        &mut w.reserve,
        &mut w.obligation,
        &w.loan_account,
        10,
        0,
        6,
        Amount::from_tokens(1),
    );
    assert_eq!(stale, Err(ErrorCode::StaleData));
    assert_eq!(borrow(&mut w, 10, Amount::from_tokens(2000)), Err(ErrorCode::Overflow));
    let stranger = key(77);
    let unregistered = honey::instructions::borrow::handler(
        &w.market,
        &mut w.oracle,
        &mut w.reserve,
        &mut w.obligation,
        &stranger,
        10,
        0,
        5,
        Amount::from_tokens(1),
    );
    assert_eq!(unregistered, Err(ErrorCode::UnregisteredPosition));
    let other = key(30);
    w.obligation.register_loan(&other, 1).unwrap();
    w.obligation.borrow(&other, Number::from_u64(1)).unwrap();
    assert_eq!(
        borrow(&mut w, 10, Amount::from_tokens(1)),
        Err(ErrorCode::AnotherLoanOutstanding)
    );
    assert_eq!(w.reserve.total_deposits(), 1000);
}

#[test]
fn liquidation_splits_the_bid_and_settles_the_debt() {
    let mut w = world();
    borrow(&mut w, 1000, Amount::from_tokens(500)).unwrap();
    w.oracle.price = Number::from_u64(100);
    let outcome = execute(&mut w, &bid(600), 600, 500, false);
    assert_eq!(
        outcome,
        Ok(LiquidationOutcome {
            payoff_notes: 500,
            payoff_tokens: 500,
            liquidation_fee_tokens: 5,
            leftovers_after_fees: 95
        })
    );
    assert_eq!(w.reserve.total_deposits(), 1000);
    assert_eq!(w.reserve.total_loan_notes(), 0);
    assert!(w.reserve.unwrap_outstanding_debt(5).is_zero());
    assert!(w.obligation.loans().position(&w.loan_account).unwrap().amount.is_zero());
    assert_eq!(w.obligation.unregister_nft(w.nft), Err(ErrorCode::UnregisteredCollateral));
    assert!(w.obligation.is_healthy(&w.market, 5));
}

#[test]
fn liquidation_fails_in_the_order_of_its_checks() {
    let mut w = world();
    borrow(&mut w, 1000, Amount::from_tokens(500)).unwrap();
    let mut foreign = bid(600);
    foreign.bid_mint = key(99);
    assert_eq!(execute(&mut w, &foreign, 600, 500, false), Err(ErrorCode::BidMintMismatch));
    assert_eq!(execute(&mut w, &bid(600), 600, 500, false), Err(ErrorCode::ObligationHealthy));
    w.oracle.price = Number::from_u64(100);
    assert_eq!(execute(&mut w, &bid(600), 600, 0, false), Err(ErrorCode::InvalidParameter));
    assert_eq!(
        execute(&mut w, &bid(600), 499, 500, false),
        Err(ErrorCode::LiquidationLowCollateral)
    );
    assert_eq!(execute(&mut w, &bid(499), 499, 500, true), Err(ErrorCode::Overflow));
    let mut greedy = w.reserve;
    greedy.config.liquidation_premium = 10001;
    let refused = honey::instructions::execute_liquidate_bid::handler(
        &w.market,
        &w.oracle,
        &mut greedy,
        &mut w.obligation,
        &bid(10_600),
        &w.nft,
        &w.loan_account,
        10_600,
        500,
        false,
        5,
    );
    assert_eq!(refused, Err(ErrorCode::Overflow));
    let other_nft = key(55);
    let missing = honey::instructions::execute_liquidate_bid::handler(
        &w.market,
        &w.oracle,
        &mut w.reserve,
        &mut w.obligation,
        &bid(600),
        &other_nft,
        &w.loan_account,
        600,
        500,
        false,
        5,
    );
    assert_eq!(missing, Err(ErrorCode::UnregisteredCollateral));
    assert_eq!(execute(&mut w, &bid(600), 600, 100, false), Err(ErrorCode::ObligationUnhealthy));
    assert_eq!(w.reserve.total_loan_notes(), 500);
    assert_eq!(w.reserve.total_deposits(), 500);
    assert_eq!(
        w.obligation.loans().position(&w.loan_account).unwrap().amount,
        Number::from_u64(500)
    );
    assert_eq!(w.obligation.unregister_nft(w.nft), Ok(()));
}

#[test]
fn bid_is_fully_disbursed() {
    for (limit, tokens, premium) in
        [(600u64, 500u64, 500u16), (1_000_003, 7, 333), (5, 5, 10000), (u64::MAX, 1, 9999)]
    {
        let outcome = split_bid(limit, Payoff { notes: 1, tokens }, premium).unwrap();
        assert_eq!(outcome.payoff_tokens, tokens);
        assert_eq!(
            outcome.liquidation_fee_tokens as u128,
            (limit - tokens) as u128 * premium as u128 / 10000
        );
        assert_eq!(
            outcome.payoff_tokens as u128
                + outcome.liquidation_fee_tokens as u128
                + outcome.leftovers_after_fees as u128,
            limit as u128
        );
    }
    assert_eq!(split_bid(4, Payoff { notes: 1, tokens: 5 }, 0).err(), Some(ErrorCode::Overflow));
    assert_eq!(
        split_bid(10_000, Payoff { notes: 1, tokens: 0 }, 10001).err(),
        Some(ErrorCode::Overflow)
    );
}

#[test]
fn snapshot_stays_stale_until_the_refresh_is_complete() {
    let mut w = world();
    let target = 100 + 3 * SECONDS_PER_WEEK;
    let refresh = honey::instructions::refresh_reserve::handler;
    for _ in 0..2 {
        let outcome =
            refresh(&mut w.market, &mut w.oracle, &mut w.reserve, 1000, 0, 2, 0, target, 9);
        assert_eq!(outcome.unwrap().completion, JobCompletion::Partial);
        assert_eq!(w.market.try_get_cached(0, 9).err(), Some(ErrorCode::StaleData));
        assert_eq!(w.market.try_get_cached(0, 5).err(), Some(ErrorCode::StaleData));
        assert_eq!(w.market.try_get_cached(0, 0).err(), Some(ErrorCode::StaleData));
        assert!(!w.reserve.state.fresh_at(9));
    }
    let outcome = refresh(&mut w.market, &mut w.oracle, &mut w.reserve, 1000, 0, 2, 0, target, 9);
    assert_eq!(outcome.unwrap().completion, JobCompletion::Full);
    assert_eq!(w.market.try_get_cached(0, 9).unwrap().price, Number::from_u64(2));
    assert!(w.reserve.state.fresh_at(9));
    assert_eq!(w.reserve.state.get_stale().accrued_until, target);
}

#[test]
fn refresh_collects_fees_as_notes() {
    let mut w = world();
    w.reserve.config.loan_origination_fee = 1000;
    w.reserve.config.protocol_fee_rate = 400;
    borrow(&mut w, 1000, Amount::from_tokens(500)).unwrap();
    let outcome = honey::instructions::refresh_reserve::handler(
        &mut w.market,
        &mut w.oracle,
        &mut w.reserve,
        1000,
        0,
        1,
        0,
        100,
        6,
    );
    assert_eq!(
        outcome,
        Ok(RefreshOutcome {
            completion: JobCompletion::Full,
            notes_to_mint: 50,
            notes_to_mint_protocol: 20
        })
    );
    assert_eq!(w.reserve.total_deposit_notes(), 1070);
    assert!(w.reserve.state.get_stale().uncollected_fees.is_zero());
    assert!(w.reserve.state.get_stale().uncollected_protocol_fees.is_zero());
    assert_eq!(w.market.get_cached(0, 6).deposit_note_exchange_rate, Number::one());
}

#[test]
fn refresh_fails_without_changing_anything() {
    let mut w = world();
    let refresh = honey::instructions::refresh_reserve::handler;
    assert_eq!(
        refresh(&mut w.market, &mut w.oracle, &mut w.reserve, -5, 0, 1, 0, 100, 6),
        Err(ErrorCode::InvalidOraclePrice)
    );
    assert_eq!(
        refresh(&mut w.market, &mut w.oracle, &mut w.reserve, 5, 0, -1, 0, 100, 6),
        Err(ErrorCode::InvalidOraclePrice)
    );
    assert_eq!(
        refresh(&mut w.market, &mut w.oracle, &mut w.reserve, 5, 0, 1, 0, 99, 6),
        Err(ErrorCode::InvalidParameter)
    );
    let mut elsewhere = w.reserve;
    elsewhere.index = 3;
    assert_eq!(
        refresh(&mut w.market, &mut w.oracle, &mut elsewhere, 5, 0, 1, 0, 100, 6),
        Err(ErrorCode::InvalidParameter)
    );
    assert_eq!(w.oracle.price, Number::from_u64(1000));
    assert!(w.market.try_get_cached(0, 5).is_ok());
}

#[test]
fn solvent_liquidation_repays_what_the_price_covers() {
    let mut w = world();
    borrow(&mut w, 1000, Amount::from_tokens(500)).unwrap();
    let liquidate = honey::instructions::liquidate_solvent::handler;
    assert_eq!(
        liquidate(
            &w.market,
            &mut w.reserve,
            &mut w.obligation,
            &w.loan_account,
            500,
            5,
            Amount::from_tokens(625)
        ),
        Err(ErrorCode::ObligationHealthy)
    );
    assert_eq!(
        liquidate(
            &w.market,
            &mut w.reserve,
            &mut w.obligation,
            &w.loan_account,
            500,
            5,
            Amount::from_deposit_notes(300)
        ),
        Err(ErrorCode::InvalidUnits)
    );
    assert_eq!(w.reserve.total_loan_notes(), 500);
    assert_eq!(
        liquidate(
            &w.market,
            &mut w.reserve,
            &mut w.obligation,
            &w.loan_account,
            500,
            5,
            Amount::from_tokens(300)
        ),
        Ok(Payoff { notes: 300, tokens: 300 })
    );
    assert_eq!(w.reserve.total_loan_notes(), 200);
    assert_eq!(w.reserve.total_deposits(), 800);
    assert_eq!(w.reserve.unwrap_outstanding_debt(5), Number::from_u64(200));
    assert_eq!(
        w.obligation.loans().position(&w.loan_account).unwrap().amount,
        Number::from_u64(200)
    );
    assert_eq!(w.obligation.unregister_nft(w.nft), Ok(()));
    assert_eq!(
        liquidate(
            &w.market,
            &mut w.reserve,
            &mut w.obligation,
            &w.loan_account,
            150,
            5,
            Amount::from_loan_notes(190)
        ),
        Ok(Payoff { notes: 150, tokens: 150 })
    );
}

#[test]
fn reserve_config_is_replaced() {
    let mut w = world();
    let mut new_config = config();
    new_config.min_collateral_ratio = 20000;
    honey::instructions::update_reserve_config::handler(&mut w.reserve, new_config);
    assert_eq!(w.reserve.config.min_collateral_ratio, 20000);
    assert_eq!(w.reserve.total_deposits(), 1000);
}

#[test]
fn collateral_cannot_be_withdrawn_from_under_a_loan() {
    let mut w = world();
    borrow(&mut w, 1000, Amount::from_tokens(500)).unwrap();
    let mut next = w.obligation.duplicate();
    assert_eq!(next.unregister_nft(w.nft), Ok(()));
    assert_eq!(next.revalue(&w.market, 5, &w.oracle), Ok(false));
    assert_eq!(w.obligation.revalue(&w.market, 5, &w.oracle), Ok(true));
}

#[test]
fn repayment_is_capped_by_the_notes_held_and_the_debt_owed() {
    let mut w = world();
    borrow(&mut w, 1000, Amount::from_tokens(500)).unwrap();
    let repay = honey::instructions::repay::handler;
    assert_eq!(
        repay(
            &w.market,
            &mut w.reserve,
            &mut w.obligation,
            &w.loan_account,
            500,
            5,
            Amount::from_deposit_notes(1)
        ),
        Err(ErrorCode::InvalidUnits)
    );
    assert_eq!(
        repay(
            &w.market,
            &mut w.reserve,
            &mut w.obligation,
            &key(78),
            500,
            5,
            Amount::from_tokens(1)
        ),
        Err(ErrorCode::UnregisteredPosition)
    );
    assert_eq!(
        repay(
            &w.market,
            &mut w.reserve,
            &mut w.obligation,
            &w.loan_account,
            500,
            6,
            Amount::from_tokens(1)
        ),
        Err(ErrorCode::StaleData)
    );
    assert_eq!(w.reserve.total_loan_notes(), 500);
    assert_eq!(
        repay(
            &w.market,
            &mut w.reserve,
            &mut w.obligation,
            &w.loan_account,
            500,
            5,
            Amount::from_tokens(120)
        ),
        Ok(Payoff { notes: 120, tokens: 120 })
    );
    assert_eq!(
        repay(
            &w.market,
            &mut w.reserve,
            &mut w.obligation,
            &w.loan_account,
            300,
            5,
            Amount::from_loan_notes(1000)
        ),
        Ok(Payoff { notes: 300, tokens: 300 })
    );
    assert_eq!(w.reserve.total_loan_notes(), 80);
    assert_eq!(w.reserve.total_deposits(), 920);
    assert_eq!(w.reserve.unwrap_outstanding_debt(5), Number::from_u64(80));
    assert_eq!(
        w.obligation.loans().position(&w.loan_account).unwrap().amount,
        Number::from_u64(80)
    );
    assert_eq!(w.obligation.try_is_healthy(&w.market, 5), Err(ErrorCode::StaleData));
}

#[test]
fn withdrawal_burns_notes_rounded_up() {
    let mut w = world();
    let withdraw = honey::instructions::withdraw_tokens::handler;
    assert_eq!(
        withdraw(&w.market, &mut w.reserve, 5, Amount::from_tokens(400)),
        Ok(DepositOutcome { token_amount: 400, note_amount: 400 })
    );
    assert_eq!(w.reserve.total_deposits(), 600);
    assert_eq!(w.reserve.total_deposit_notes(), 600);
    assert_eq!(
        withdraw(&w.market, &mut w.reserve, 5, Amount::from_tokens(601)),
        Err(ErrorCode::Overflow)
    );
    assert_eq!(
        withdraw(&w.market, &mut w.reserve, 5, Amount::from_loan_notes(1)),
        Err(ErrorCode::InvalidUnits)
    );
    assert_eq!(
        withdraw(&w.market, &mut w.reserve, 6, Amount::from_tokens(1)),
        Err(ErrorCode::StaleData)
    );
    w.market.get_mut(0).cache.get_stale_mut().deposit_note_exchange_rate =
        Number::from_decimal(15, -1);
    assert_eq!(
        withdraw(&w.market, &mut w.reserve, 5, Amount::from_tokens(10)),
        Ok(DepositOutcome { token_amount: 10, note_amount: 7 })
    );
    assert_eq!(
        withdraw(&w.market, &mut w.reserve, 5, Amount::from_deposit_notes(3)),
        Ok(DepositOutcome { token_amount: 4, note_amount: 3 })
    );
    assert_eq!(w.reserve.total_deposits(), 586);
    assert_eq!(w.reserve.total_deposit_notes(), 590);
}

#[test]
fn stored_parts_make_an_obligation_again() {
    let mut w = world();
    borrow(&mut w, 1000, Amount::from_tokens(500)).unwrap();
    let rebuilt = Obligation::from_parts(
        w.obligation.market(),
        w.obligation.owner(),
        w.obligation.collateral().clone(),
        w.obligation.loans().slots().clone(),
        *w.obligation.cached(),
    )
    .unwrap();
    assert_eq!(rebuilt.position_count(), 1);
    assert!(rebuilt.has_loan_custody(&w.loan_account));
    assert!(rebuilt.is_healthy(&w.market, 5));
    assert_eq!(rebuilt.loan_value(&w.market, 5), Number::from_u64(500));
    let mut twice = rebuilt.loans().slots().clone();
    twice[3] = twice[0];
    assert!(Obligation::from_parts(
        key(1),
        key(2),
        rebuilt.collateral().clone(),
        twice,
        *rebuilt.cached()
    )
    .is_none());
    assert!(Obligation::from_parts(key(1), key(2), vec![], vec![], *rebuilt.cached()).is_none());
    let limbs = Number::from_decimal(1242, -3).to_limbs();
    assert_eq!(limbs, [1_242_000_000_000_000, 0, 0]);
    assert_eq!(Number::from_limbs(Number::max_value().to_limbs()), Number::max_value());
    assert_eq!(w.obligation.cached().last_updated(), 5);
    assert!(!w.obligation.cached().invalidated());
}

#[test]
fn summed_values_of_positions() {
    let mut w = world();
    borrow(&mut w, 1000, Amount::from_tokens(500)).unwrap();
    let total = w.obligation.loans().market_value(&w.market, 5);
    assert_eq!(total.market_value, Number::from_u64(500));
    assert_eq!(total.complementary_limit, Number::from_u64(625));
    let position = *w.obligation.loans().position(&w.loan_account).unwrap();
    let value = position.market_value(w.market.get_cached(0, 5));
    assert_eq!(value.market_value, Number::from_u64(500));
    assert_eq!(value.complementary_limit, Number::from_u64(625));
}
