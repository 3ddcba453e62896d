use honey::cache::Cache;
use honey::common::{Amount, AmountUnits, Rounding};
use honey::errors::ErrorCode;
use honey::market::{oracle_price, CachedReserveInfo, MarketReserves};
use honey::keys::StoredPubkey;
use honey::number::Number;

fn info(deposit_rate: Number, loan_rate: Number) -> CachedReserveInfo {
    let mut info = CachedReserveInfo::zeroed();
    info.price = Number::one();
    info.deposit_note_exchange_rate = deposit_rate;
    info.loan_note_exchange_rate = loan_rate;
    info.min_collateral_ratio = Number::from_bps(12500);
    info
}

#[test]
fn amounts_keep_their_units() {
    assert_eq!(Amount::from_tokens(5), Amount { units: AmountUnits::Tokens, value: 5 });
    assert_eq!(
        Amount::from_deposit_notes(6),
        Amount { units: AmountUnits::DepositNotes, value: 6 }
    );
    assert_eq!(Amount::from_loan_notes(7), Amount { units: AmountUnits::LoanNotes, value: 7 });
}

#[test]
fn tokens_are_their_own_value() {
    let info = info(Number::from_decimal(15, -1), Number::from_decimal(25, -1));
    assert_eq!(Amount::from_tokens(10).as_tokens(&info, Rounding::Up), 10);
    assert_eq!(Amount::from_tokens(10).as_tokens(&info, Rounding::Down), 10);
    assert_eq!(Amount::from_deposit_notes(10).as_deposit_notes(&info, Rounding::Up), Ok(10));
    assert_eq!(Amount::from_loan_notes(10).as_loan_notes(&info, Rounding::Down), Ok(10));
}

#[test]
fn notes_are_worth_the_exchange_rate() {
    let info = info(Number::from_decimal(15, -1), Number::from_decimal(25, -1));
    assert_eq!(Amount::from_deposit_notes(10).as_tokens(&info, Rounding::Down), 15);
    assert_eq!(Amount::from_deposit_notes(10).as_tokens(&info, Rounding::Up), 15);
    assert_eq!(Amount::from_deposit_notes(1).as_tokens(&info, Rounding::Down), 1);
    assert_eq!(Amount::from_deposit_notes(1).as_tokens(&info, Rounding::Up), 2);
    assert_eq!(Amount::from_loan_notes(3).as_tokens(&info, Rounding::Down), 7);
    assert_eq!(Amount::from_loan_notes(3).as_tokens(&info, Rounding::Up), 8);
    assert_eq!(Amount::from_tokens(10).as_deposit_notes(&info, Rounding::Down), Ok(6));
    assert_eq!(Amount::from_tokens(10).as_deposit_notes(&info, Rounding::Up), Ok(7));
    assert_eq!(Amount::from_tokens(10).as_loan_notes(&info, Rounding::Down), Ok(4));
    assert_eq!(Amount::from_tokens(10).as_loan_notes(&info, Rounding::Up), Ok(4));
    assert_eq!(Amount::from_tokens(11).as_loan_notes(&info, Rounding::Up), Ok(5));
    assert_eq!(info.deposit_notes_to_tokens(7, Rounding::Up), 11);
    assert_eq!(info.deposit_notes_from_tokens(11, Rounding::Down), 7);
    assert_eq!(info.loan_notes_to_tokens(7, Rounding::Down), 17);
    assert_eq!(info.loan_notes_from_tokens(17, Rounding::Up), 7);
}

#[test]
fn notes_of_one_kind_have_no_value_in_the_other() {
    let info = info(Number::one(), Number::one());
    assert_eq!(
        Amount::from_loan_notes(1).as_deposit_notes(&info, Rounding::Down),
        Err(ErrorCode::InvalidUnits)
    );
    assert_eq!(
        Amount::from_deposit_notes(1).as_loan_notes(&info, Rounding::Down),
        Err(ErrorCode::InvalidUnits)
    );
    assert_eq!(
        Amount::from_loan_notes(1).checked_as_deposit_notes(&info, Rounding::Up),
        Err(ErrorCode::InvalidUnits)
    );
    assert_eq!(
        Amount::from_deposit_notes(1).checked_as_loan_notes(&info, Rounding::Up),
        Err(ErrorCode::InvalidUnits)
    );
}

#[test]
fn conversions_that_do_not_fit_overflow() {
    let zero_rates = info(Number::zero(), Number::zero());
    assert_eq!(
        Amount::from_tokens(1).checked_as_deposit_notes(&zero_rates, Rounding::Down),
        Err(ErrorCode::Overflow)
    );
    assert_eq!(
        Amount::from_tokens(1).checked_as_loan_notes(&zero_rates, Rounding::Down),
        Err(ErrorCode::Overflow)
    );
    assert_eq!(
        Amount::from_deposit_notes(9).checked_as_tokens(&zero_rates, Rounding::Up),
        Ok(0)
    );
    let steep = info(Number::from_u64(3), Number::max_value());
    assert_eq!(
        Amount::from_deposit_notes(u64::MAX).checked_as_tokens(&steep, Rounding::Down),
        Err(ErrorCode::Overflow)
    );
    assert_eq!(
        Amount::from_loan_notes(2).checked_as_tokens(&steep, Rounding::Down),
        Err(ErrorCode::Overflow)
    );
    assert_eq!(
        Amount::from_deposit_notes(5).checked_as_tokens(&steep, Rounding::Down),
        Ok(15)
    );
    let tiny = info(Number::from_raw_u64(1), Number::one());
    assert_eq!(
        Amount::from_tokens(1).checked_as_deposit_notes(&tiny, Rounding::Down),
        Ok(1_000_000_000_000_000)
    );
    assert_eq!(
        Amount::from_tokens(20_000).checked_as_deposit_notes(&tiny, Rounding::Down),
        Err(ErrorCode::Overflow)
    );
    assert_eq!(steep.checked_deposit_notes_from_tokens(10, Rounding::Up), Ok(4));
    assert_eq!(steep.checked_loan_notes_to_tokens(1, Rounding::Up), Err(ErrorCode::Overflow));
}

fn round_trip(tokens: u64, info: &CachedReserveInfo) -> (u64, u64, u64) {
    let notes = Amount::from_tokens(tokens).as_deposit_notes(info, Rounding::Down).unwrap();
    let back = Amount::from_deposit_notes(notes).as_tokens(info, Rounding::Up);
    let again = Amount::from_tokens(back).as_deposit_notes(info, Rounding::Down).unwrap();
    (notes, back, again)
}

#[test]
fn rounding_never_creates_value() {
    for rate in [
        Number::one(),
        Number::from_decimal(15, -1),
        Number::from_decimal(1_000_000_001, -9),
        Number::from_u64(7),
        Number::from_decimal(5, -1),
        Number::from_decimal(999_999_999, -9),
    ] {
        let info = info(rate, Number::one());
        for tokens in [0u64, 1, 2, 3, 10, 999, 1_000_000_007, u64::MAX / 1_000_000] {
            let (notes, back, again) = round_trip(tokens, &info);
            assert!(back <= tokens);
            assert_eq!(again, notes);
            if !rate.lt(&Number::one()) {
                assert!(again <= tokens);
            }
        }
    }
    let info = info(Number::from_decimal(15, -1), Number::one());
    assert_eq!(round_trip(10, &info), (6, 9, 6));
}

#[test]
fn cache_hands_out_only_fresh_values() {
    let mut cache = Cache::new(7u64, 10);
    assert_eq!(cache.try_get(10), Ok(&7));
    assert_eq!(cache.try_get(3), Ok(&7));
    assert_eq!(cache.try_get(11), Err(ErrorCode::StaleData));
    assert_eq!(*cache.expect(10), 7);
    assert!(cache.fresh_at(10));
    cache.invalidate();
    assert_eq!(cache.try_get(10), Err(ErrorCode::StaleData));
    assert_eq!(cache.try_get(0), Err(ErrorCode::StaleData));
    assert_eq!(*cache.get_stale(), 7);
    *cache.get_stale_mut() = 8;
    assert_eq!(cache.try_get(0), Err(ErrorCode::StaleData));
    cache.refresh_to(12);
    assert_eq!(cache.try_get(12), Ok(&8));
    cache.set_stale(9);
    assert_eq!(cache.try_get(12), Ok(&9));
    cache.invalidate();
    cache.refresh(13);
    assert_eq!(cache.try_get(13), Ok(&9));
    assert_eq!(cache.try_get(14), Err(ErrorCode::StaleData));
}

#[test]
fn market_registers_up_to_thirty_two_reserves() {
    let mut market = MarketReserves::new();
    for i in 0..32u8 {
        assert_eq!(market.register(&StoredPubkey::new([i; 32])), Ok(i as u16));
    }
    assert_eq!(market.len(), 32);
    assert_eq!(market.register(&StoredPubkey::new([99; 32])), Err(ErrorCode::NoFreeReserves));
    assert_eq!(market.len(), 32);
    assert_eq!(market.get(5).reserve.to_bytes(), [5u8; 32]);
    assert!(market.try_get_cached(5, 0).is_ok());
    assert_eq!(market.try_get_cached(5, 1).err(), Some(ErrorCode::StaleData));
    assert_eq!(market.try_get_cached(32, 0).err(), Some(ErrorCode::StaleData));
    market.get_mut(5).cache.get_stale_mut().price = Number::from_u64(3);
    market.get_mut(5).cache.refresh_to(8);
    assert_eq!(market.get_cached(5, 8).price, Number::from_u64(3));
    assert_eq!(market.get_cached(4, 0).price, Number::zero());
}

#[test]
fn oracle_prices() {
    assert_eq!(oracle_price(10, 0), Ok(Number::from_u64(10)));
    assert_eq!(oracle_price(12345, 3), Ok(Number::from_decimal(12345, -3)));
    assert_eq!(oracle_price(0, 31), Ok(Number::zero()));
    assert_eq!(oracle_price(-1, 0), Err(ErrorCode::InvalidOraclePrice));
    assert_eq!(oracle_price(1, 32), Err(ErrorCode::InvalidOraclePrice));
}
