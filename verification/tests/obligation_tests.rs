use honey::errors::ErrorCode;
use honey::keys::StoredPubkey;
use honey::market::{MarketOracle, MarketReserves, ReserveInfo};
use honey::number::Number;
use honey::obligation::Obligation;
use solana_program::pubkey::Pubkey;

struct ObligationTestContext {
    market: MarketReserves,
    obligation: Obligation,
}

fn new_unique() -> StoredPubkey {
    StoredPubkey::new(Pubkey::new_unique().to_bytes())
}

impl ObligationTestContext {
    fn new() -> Self {
        Self {
            market: MarketReserves::new(),
            obligation: Obligation::new(StoredPubkey::zeroed(), StoredPubkey::zeroed()),
        }
    }

    fn create_loan(&mut self, reserve_init: impl Fn(&mut ReserveInfo)) -> StoredPubkey {
        let reserve_key = new_unique();
        let loan_key = new_unique();

        let reserve_index = self.market.register(&reserve_key).unwrap();
        let reserve_info = self.market.get_mut(reserve_index);

        reserve_init(reserve_info);

        self.obligation.register_loan(&loan_key, reserve_index).unwrap();

        loan_key
    }
}

#[test]
fn is_nft_value_included() {
    let mut ctx = ObligationTestContext::new();
    let deposit_nft_mint = new_unique();
    ctx.obligation.register_nft(deposit_nft_mint).unwrap();

    let price_from = Number::from_u64(2);
    let nft_oracle_price: MarketOracle = MarketOracle { price: price_from };
    let expected_nft_value = ctx.obligation.nft_collateral_value(price_from);
    assert_eq!(expected_nft_value, price_from.mul_int(1));

    ctx.obligation.cache_calculations(&ctx.market, 0, &nft_oracle_price);
    let healthy = ctx.obligation.is_healthy(&ctx.market, 0);
    assert!(healthy);

    let loan = ctx.create_loan(|reserve| {
        let cache = reserve.cache.get_stale_mut();

        cache.price = Number::from_u64(4);
        cache.loan_note_exchange_rate = Number::from_u64(1);
        cache.min_collateral_ratio = Number::from_bps(12500);
    });
    ctx.obligation.borrow(&loan, Number::from_u64(1)).unwrap();

    ctx.obligation.cache_calculations(&ctx.market, 0, &nft_oracle_price);
    let healthy = ctx.obligation.is_healthy(&ctx.market, 0);
    assert!(!healthy);
}

#[test]
fn sane_is_obligation_healthy() {
    let mut ctx = ObligationTestContext::new();

    let loan = ctx.create_loan(|reserve| {
        let cache = reserve.cache.get_stale_mut();

        cache.price = Number::from_u64(2);
        cache.loan_note_exchange_rate = Number::from_u64(1_000);
        cache.min_collateral_ratio = Number::from_bps(12500);
    });

    ctx.obligation.borrow(&loan, Number::from_u64(500_000)).unwrap();

    let price_from = Number::from_u64(122);
    let nft_oracle_price: MarketOracle = MarketOracle { price: price_from };
    ctx.obligation.cache_calculations(&ctx.market, 0, &nft_oracle_price);
    let healthy = ctx.obligation.is_healthy(&ctx.market, 0);
    assert!(!healthy);

    ctx.obligation.repay(&loan, Number::from_u64(500_000)).unwrap();

    ctx.obligation.cache_calculations(&ctx.market, 0, &nft_oracle_price);
    let healthy = ctx.obligation.is_healthy(&ctx.market, 0);
    assert!(healthy);
}

fn market_with_reserves(n: usize) -> MarketReserves {
    let mut market = MarketReserves::new();
    for _ in 0..n {
        let index = market.register(&new_unique()).unwrap();
        let info = market.get_mut(index);
        let cache = info.cache.get_stale_mut();
        cache.price = Number::from_u64(1);
        cache.loan_note_exchange_rate = Number::from_u64(1);
        cache.min_collateral_ratio = Number::from_bps(12500);
    }
    market
}

#[test]
fn twelfth_loan_position_is_refused_for_want_of_room() {
    let mut obligation = Obligation::new(new_unique(), new_unique());
    for index in 0..11u16 {
        assert_eq!(obligation.register_loan(&new_unique(), index), Ok(()));
    }
    assert_eq!(obligation.position_count(), 11);
    assert_eq!(obligation.register_loan(&new_unique(), 11), Err(ErrorCode::NoFreeObligation));
    assert_eq!(obligation.position_count(), 11);
}

#[test]
fn collateral_is_refused_once_eleven_loans_are_registered() {
    let mut obligation = Obligation::new(new_unique(), new_unique());
    for index in 0..11u16 {
        obligation.register_loan(&new_unique(), index).unwrap();
    }
    assert_eq!(obligation.register_nft(new_unique()), Err(ErrorCode::NoFreeObligation));
}

#[test]
fn second_collateral_item_is_refused() {
    let mut obligation = Obligation::new(new_unique(), new_unique());
    let item = new_unique();
    assert_eq!(obligation.register_nft(item), Ok(()));
    assert_eq!(obligation.register_nft(item), Err(ErrorCode::DuplicateCollateral));
    assert_eq!(obligation.register_nft(new_unique()), Err(ErrorCode::DuplicateCollateral));
}

#[test]
fn duplicate_loan_account_is_refused() {
    let mut obligation = Obligation::new(new_unique(), new_unique());
    let account = new_unique();
    assert_eq!(obligation.register_loan(&account, 0), Ok(()));
    assert_eq!(obligation.register_loan(&account, 1), Err(ErrorCode::DuplicatePosition));
    assert_eq!(
        obligation.register_loan(&new_unique(), 0),
        Err(ErrorCode::ReserveAlreadyRegistered)
    );
    assert_eq!(obligation.position_count(), 1);
}

#[test]
fn unregistering_frees_the_slot() {
    let mut obligation = Obligation::new(new_unique(), new_unique());
    let account = new_unique();
    let item = new_unique();
    obligation.register_loan(&account, 3).unwrap();
    obligation.register_nft(item).unwrap();
    assert!(obligation.has_loan_custody(&account));
    assert_eq!(obligation.unregister_loan(&account), Ok(()));
    assert!(!obligation.has_loan_custody(&account));
    assert_eq!(
        obligation.unregister_loan(&account),
        Err(ErrorCode::ObligationPositionNotFound)
    );
    assert_eq!(obligation.unregister_nft(item), Ok(()));
    assert_eq!(obligation.unregister_nft(item), Err(ErrorCode::UnregisteredCollateral));
    assert_eq!(obligation.register_nft(item), Ok(()));
    assert_eq!(obligation.register_loan(&account, 3), Ok(()));
}

#[test]
fn borrow_and_repay_need_a_registered_account() {
    let mut obligation = Obligation::new(new_unique(), new_unique());
    let stranger = new_unique();
    assert_eq!(
        obligation.borrow(&stranger, Number::from_u64(1)),
        Err(ErrorCode::UnregisteredPosition)
    );
    assert_eq!(
        obligation.repay(&stranger, Number::from_u64(1)),
        Err(ErrorCode::UnregisteredPosition)
    );
    assert!(obligation.loans().position(&stranger).is_err());
}

#[test]
fn borrow_adds_and_repay_saturates() {
    let mut obligation = Obligation::new(new_unique(), new_unique());
    let account = new_unique();
    obligation.register_loan(&account, 0).unwrap();
    obligation.borrow(&account, Number::from_u64(7)).unwrap();
    obligation.borrow(&account, Number::from_u64(5)).unwrap();
    assert_eq!(obligation.loans().position(&account).unwrap().amount, Number::from_u64(12));
    obligation.repay(&account, Number::from_u64(2)).unwrap();
    assert_eq!(obligation.loans().position(&account).unwrap().amount, Number::from_u64(10));
    obligation.repay(&account, Number::from_u64(50)).unwrap();
    assert_eq!(obligation.loans().position(&account).unwrap().amount, Number::zero());
    assert_eq!(
        obligation.borrow(&account, Number::max_value()),
        Ok(())
    );
    assert_eq!(obligation.borrow(&account, Number::from_u64(1)), Err(ErrorCode::Overflow));
}

#[test]
fn collateral_changes_invalidate_the_valuation() {
    let market = market_with_reserves(1);
    let mut obligation = Obligation::new(new_unique(), new_unique());
    let account = new_unique();
    let item = new_unique();
    let oracle = MarketOracle { price: Number::from_u64(10) };
    obligation.register_loan(&account, 0).unwrap();
    obligation.cache_calculations(&market, 0, &oracle);
    assert!(obligation.cached().fresh_at(0));
    obligation.register_nft(item).unwrap();
    assert!(!obligation.cached().fresh_at(0));
    obligation.cache_calculations(&market, 0, &oracle);
    assert_eq!(obligation.register_nft(item), Err(ErrorCode::DuplicateCollateral));
    assert!(obligation.cached().fresh_at(0));
    obligation.unregister_nft(item).unwrap();
    assert!(!obligation.cached().fresh_at(0));
    obligation.cache_calculations(&market, 0, &oracle);
    obligation.unregister_loan(&account).unwrap();
    assert!(!obligation.cached().fresh_at(0));
}

#[test]
fn mutation_invalidates_the_valuation() {
    let market = market_with_reserves(1);
    let mut obligation = Obligation::new(new_unique(), new_unique());
    let account = new_unique();
    obligation.register_loan(&account, 0).unwrap();
    let oracle = MarketOracle { price: Number::from_u64(10) };
    obligation.cache_calculations(&market, 0, &oracle);
    assert!(obligation.cached().try_get(0).is_ok());
    obligation.borrow(&account, Number::from_u64(1)).unwrap();
    assert_eq!(obligation.cached().try_get(0).err(), Some(ErrorCode::StaleData));
    assert_eq!(obligation.try_is_healthy(&market, 0), Err(ErrorCode::StaleData));
}

#[test]
fn borrowing_eight_notes_is_covered_and_nine_are_not() {
    let market = market_with_reserves(1);
    let mut obligation = Obligation::new(new_unique(), new_unique());
    let account = new_unique();
    obligation.register_nft(new_unique()).unwrap();
    obligation.register_loan(&account, 0).unwrap();
    let oracle = MarketOracle { price: Number::from_u64(10) };

    obligation.borrow(&account, Number::from_u64(8)).unwrap();
    obligation.cache_calculations(&market, 0, &oracle);
    assert!(obligation.is_healthy(&market, 0));

    obligation.borrow(&account, Number::from_u64(1)).unwrap();
    obligation.cache_calculations(&market, 0, &oracle);
    assert!(!obligation.is_healthy(&market, 0));
}

#[test]
fn higher_collateral_price_keeps_health_and_more_debt_keeps_unhealth() {
    let market = market_with_reserves(1);
    let mut obligation = Obligation::new(new_unique(), new_unique());
    let account = new_unique();
    obligation.register_nft(new_unique()).unwrap();
    obligation.register_loan(&account, 0).unwrap();
    obligation.borrow(&account, Number::from_u64(8)).unwrap();
    for price in [10u64, 11, 100, 1_000_000] {
        let oracle = MarketOracle { price: Number::from_u64(price) };
        assert_eq!(obligation.revalue(&market, 0, &oracle), Ok(true));
    }
    let oracle = MarketOracle { price: Number::from_u64(9) };
    assert_eq!(obligation.revalue(&market, 0, &oracle), Ok(false));
    for _ in 0..5 {
        obligation.borrow(&account, Number::from_u64(3)).unwrap();
        assert_eq!(obligation.revalue(&market, 0, &oracle), Ok(false));
    }
}

#[test]
fn strictest_ratio_among_active_loans_governs() {
    let mut market = market_with_reserves(2);
    market.get_mut(1).cache.get_stale_mut().min_collateral_ratio = Number::from_bps(20000);
    let mut obligation = Obligation::new(new_unique(), new_unique());
    let first = new_unique();
    let second = new_unique();
    obligation.register_nft(new_unique()).unwrap();
    obligation.register_loan(&first, 0).unwrap();
    obligation.register_loan(&second, 1).unwrap();
    let oracle = MarketOracle { price: Number::from_u64(10) };

    obligation.borrow(&first, Number::from_u64(8)).unwrap();
    assert_eq!(obligation.revalue(&market, 0, &oracle), Ok(true));
    obligation.repay(&first, Number::from_u64(3)).unwrap();
    obligation.borrow(&second, Number::from_u64(1)).unwrap();
    assert_eq!(obligation.revalue(&market, 0, &oracle), Ok(false));
    obligation.repay(&first, Number::from_u64(1)).unwrap();
    assert_eq!(obligation.revalue(&market, 0, &oracle), Ok(true));
    assert_eq!(obligation.loan_value(&market, 0), Number::from_u64(5));
}

#[test]
fn valuation_needs_fresh_snapshots() {
    let market = market_with_reserves(1);
    let mut obligation = Obligation::new(new_unique(), new_unique());
    let account = new_unique();
    obligation.register_loan(&account, 0).unwrap();
    obligation.borrow(&account, Number::from_u64(1)).unwrap();
    let oracle = MarketOracle { price: Number::from_u64(10) };
    assert_eq!(
        obligation.try_cache_calculations(&market, 1, &oracle),
        Err(ErrorCode::StaleData)
    );
    assert_eq!(obligation.try_cache_calculations(&market, 0, &oracle), Ok(()));
    let mut lost = Obligation::new(new_unique(), new_unique());
    lost.register_loan(&account, 7).unwrap();
    assert_eq!(lost.try_cache_calculations(&market, 0, &oracle), Err(ErrorCode::StaleData));
    assert_eq!(lost.loans().checked_market_value(&market, 0), Err(ErrorCode::StaleData));
}

#[test]
fn another_outstanding_loan_blocks_borrowing() {
    let mut obligation = Obligation::new(new_unique(), new_unique());
    let first = new_unique();
    let second = new_unique();
    obligation.register_loan(&first, 0).unwrap();
    obligation.register_loan(&second, 1).unwrap();
    assert_eq!(obligation.can_borrow_from_reserve(0), Ok(()));
    obligation.borrow(&first, Number::from_u64(1)).unwrap();
    assert_eq!(obligation.can_borrow_from_reserve(0), Ok(()));
    assert_eq!(obligation.can_borrow_from_reserve(1), Err(ErrorCode::AnotherLoanOutstanding));
    obligation.repay(&first, Number::from_u64(1)).unwrap();
    assert_eq!(obligation.can_borrow_from_reserve(1), Ok(()));
}

#[test]
fn positions_come_out_in_slot_order() {
    let mut obligation = Obligation::new(new_unique(), new_unique());
    let keys = [new_unique(), new_unique(), new_unique()];
    for (i, key) in keys.iter().enumerate() {
        obligation.register_loan(key, i as u16).unwrap();
    }
    obligation.unregister_loan(&keys[1]).unwrap();
    let left = obligation.loans().iter();
    assert_eq!(left.len(), 2);
    assert_eq!(left[0].account.to_bytes(), keys[0].to_bytes());
    assert_eq!(left[1].account.to_bytes(), keys[2].to_bytes());
    assert_eq!(left[1].reserve_index, 2);
}

#[test]
fn twelfth_collateral_item_is_refused_for_want_of_room() {
    let empty = Obligation::new(new_unique(), new_unique());
    let full: Vec<Option<StoredPubkey>> = (0..11).map(|_| Some(new_unique())).collect();
    let mut obligation = Obligation::from_parts(
        empty.market(),
        empty.owner(),
        full,
        empty.loans().slots().clone(),
        *empty.cached(),
    )
    .unwrap();
    assert_eq!(
        obligation.register_nft(new_unique()),
        Err(ErrorCode::CollateralCapacityExceeded)
    );
    let price = Number::from_u64(3);
    assert_eq!(obligation.nft_collateral_value(price), Number::from_u64(33));
    assert_eq!(obligation.checked_nft_collateral_value(Number::max_value()), None);
    let held = obligation.collateral()[4].unwrap();
    assert_eq!(obligation.unregister_nft(held), Ok(()));
    assert!(obligation.collateral()[4].is_none());
    assert_eq!(obligation.nft_collateral_value(price), Number::from_u64(30));
    assert_eq!(obligation.register_nft(new_unique()), Err(ErrorCode::DuplicateCollateral));
}
