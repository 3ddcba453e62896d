use honey::bid::Bid;
use honey::errors::ErrorCode;
use honey::instructions::place_liquidate_bid::{place, BidAccounts};
use honey::keys::{create_program_address, find_program_address, StoredPubkey};
use honey::utils::{
    match_derived, validate, verify_account_empty, verify_valid_metadata, Creator, SafeCalc,
};
use solana_program::pubkey::Pubkey;

fn stored(key: &Pubkey) -> StoredPubkey {
    StoredPubkey::new(key.to_bytes())
}

fn bid_accounts(program_id: &Pubkey) -> (BidAccounts, u8) {
    let escrow = Pubkey::new_unique();
    let (authority, bump) = Pubkey::find_program_address(&[escrow.as_ref()], program_id);
    (
        BidAccounts {
            market: stored(&Pubkey::new_unique()),
            bid_escrow: stored(&escrow),
            bid_escrow_authority: stored(&authority),
            bid_mint: stored(&Pubkey::new_unique()),
            bidder: stored(&Pubkey::new_unique()),
        },
        bump,
    )
}

#[test]
fn default_bid_is_all_zeros() {
    let bid = Bid::default();
    assert_eq!(bid.bid_limit, 0);
    assert_eq!(bid.authority_bump_seed, [0u8]);
    assert_eq!(bid.market.to_bytes(), [0u8; 32]);
    assert_eq!(bid.bid_escrow.to_bytes(), [0u8; 32]);
    assert_eq!(bid.bid_escrow_authority.to_bytes(), [0u8; 32]);
    assert_eq!(bid.bid_mint.to_bytes(), [0u8; 32]);
    assert_eq!(bid.authority_seed.to_bytes(), [0u8; 32]);
    assert_eq!(bid.bidder.to_bytes(), [0u8; 32]);
}

#[test]
fn placed_bid_records_the_derived_authority() {
    let program_id = Pubkey::new_unique();
    let (accounts, bump) = bid_accounts(&program_id);
    let (bid, to_escrow) =
        honey::instructions::place_liquidate_bid::handler(&stored(&program_id), &accounts, 600)
            .unwrap();
    assert_eq!(to_escrow, 600);
    assert_eq!(bid.bid_limit, 600);
    assert_eq!(bid.authority_bump_seed, [bump]);
    assert_eq!(bid.authority_seed.to_bytes(), accounts.bid_escrow.to_bytes());
    assert_eq!(bid.bid_escrow.to_bytes(), accounts.bid_escrow.to_bytes());
    assert_eq!(bid.bid_escrow_authority.to_bytes(), accounts.bid_escrow_authority.to_bytes());
    assert_eq!(bid.market.to_bytes(), accounts.market.to_bytes());
    assert_eq!(bid.bid_mint.to_bytes(), accounts.bid_mint.to_bytes());
    assert_eq!(bid.bidder.to_bytes(), accounts.bidder.to_bytes());
    assert_eq!(
        bid.authority_seeds(),
        vec![accounts.bid_escrow.to_bytes().to_vec(), vec![bump]]
    );
    let signer = Pubkey::create_program_address(
        &[&bid.authority_seeds()[0], &bid.authority_seeds()[1]],
        &program_id,
    )
    .unwrap();
    assert_eq!(signer.to_bytes(), bid.bid_escrow_authority.to_bytes());
}

#[test]
fn bid_under_another_authority_is_refused() {
    let program_id = Pubkey::new_unique();
    let (mut accounts, bump) = bid_accounts(&program_id);
    let right = accounts.bid_escrow_authority;
    accounts.bid_escrow_authority = stored(&Pubkey::new_unique());
    assert_eq!(
        honey::instructions::place_liquidate_bid::handler(&stored(&program_id), &accounts, 600)
            .err(),
        Some(ErrorCode::ObligationHealthy)
    );
    assert_eq!(place(&accounts, None, 1).err(), Some(ErrorCode::InvalidParameter));
    assert_eq!(
        place(&accounts, Some((right, bump)), 1).err(),
        Some(ErrorCode::ObligationHealthy)
    );
    let named = accounts.bid_escrow_authority;
    assert_eq!(place(&accounts, Some((named, 3)), 9).unwrap().authority_bump_seed, [3]);
}

#[test]
fn escrow_holds_the_limit_through_increases() {
    let program_id = Pubkey::new_unique();
    let (accounts, _) = bid_accounts(&program_id);
    let (mut bid, placed) =
        honey::instructions::place_liquidate_bid::handler(&stored(&program_id), &accounts, 600)
            .unwrap();
    let mut escrow: u128 = placed as u128;
    assert_eq!(escrow, bid.bid_limit as u128);
    for increase in [0u64, 1, 399, u64::MAX, 5, u64::MAX - 1005, 1] {
        match honey::instructions::increase_liquidate_bid::handler(&mut bid, increase) {
            Ok(to_escrow) => {
                assert_eq!(to_escrow, increase);
                escrow += to_escrow as u128;
            }
            Err(e) => assert_eq!(e, ErrorCode::Overflow),
        }
        assert_eq!(escrow, bid.bid_limit as u128);
    }
    assert_eq!(bid.bid_limit, u64::MAX);
    assert_eq!(
        honey::instructions::increase_liquidate_bid::handler(&mut bid, 1),
        Err(ErrorCode::Overflow)
    );
    assert_eq!(bid.bid_limit, u64::MAX);
    let refund = honey::instructions::revoke_liquidate_bid::handler(bid);
    assert_eq!(refund as u128, escrow);
}

#[test]
fn program_addresses_are_the_hosts() {
    let program_id = Pubkey::new_unique();
    let id = stored(&program_id);
    for seed in [b"escrow".to_vec(), b"bid".to_vec(), vec![], vec![7u8; 32]] {
        let (expected, bump) = Pubkey::find_program_address(&[&seed], &program_id);
        let found = find_program_address(&vec![seed.clone()], &id).unwrap();
        assert_eq!(found.0.to_bytes(), expected.to_bytes());
        assert_eq!(found.1, bump);
        let direct = create_program_address(&vec![seed.clone(), vec![bump]], &id).unwrap();
        assert_eq!(direct.to_bytes(), expected.to_bytes());
        assert_ne!(direct.to_bytes(), id.to_bytes());
        if bump < 255 {
            assert!(create_program_address(&vec![seed.clone(), vec![bump + 1]], &id).is_none());
        }
    }
    assert!(create_program_address(&vec![vec![1u8; 33]], &id).is_none());
    assert!(find_program_address(&vec![vec![1u8; 33]], &id).is_none());
    assert!(find_program_address(&vec![vec![1u8]; 16], &id).is_none());
}

#[test]
fn metadata_account_must_be_the_derived_one() {
    let metadata_program = Pubkey::new_unique();
    let mint = Pubkey::new_unique();
    let (metadata, bump) = Pubkey::find_program_address(
        &[b"metadata", metadata_program.as_ref(), mint.as_ref()],
        &metadata_program,
    );
    let program = stored(&metadata_program);
    assert_eq!(validate(bump, &stored(&metadata), &stored(&mint), &program), Ok(()));
    assert_eq!(
        validate(bump, &stored(&Pubkey::new_unique()), &stored(&mint), &program),
        Err(ErrorCode::KeyMismatch)
    );
    assert_eq!(
        validate(bump, &stored(&metadata), &stored(&Pubkey::new_unique()), &program)
            .is_err(),
        true
    );
    if bump < 255 {
        assert_eq!(
            validate(bump + 1, &stored(&metadata), &stored(&mint), &program),
            Err(ErrorCode::InvalidMetadata)
        );
    }
    assert_eq!(match_derived(&program, None), Err(ErrorCode::InvalidMetadata));
    assert_eq!(match_derived(&program, Some(program)), Ok(()));
    assert_eq!(
        match_derived(&program, Some(stored(&mint))),
        Err(ErrorCode::KeyMismatch)
    );
}

#[test]
fn metadata_needs_a_verified_creator_of_the_collection() {
    let collection = stored(&Pubkey::new_unique());
    let other = stored(&Pubkey::new_unique());
    let none: Vec<Creator> = vec![];
    assert_eq!(
        verify_valid_metadata(&none, &collection),
        Err(ErrorCode::VerifiedCreatorMismatch)
    );
    let unverified = vec![Creator { address: collection, verified: false }];
    assert_eq!(
        verify_valid_metadata(&unverified, &collection),
        Err(ErrorCode::VerifiedCreatorMismatch)
    );
    let strangers = vec![Creator { address: other, verified: true }];
    assert_eq!(
        verify_valid_metadata(&strangers, &collection),
        Err(ErrorCode::VerifiedCreatorMismatch)
    );
    let mixed = vec![
        Creator { address: other, verified: true },
        Creator { address: collection, verified: false },
        Creator { address: collection, verified: true },
    ];
    assert_eq!(verify_valid_metadata(&mixed, &collection), Ok(()));
}

#[test]
fn collateral_is_posted_and_taken_back_through_its_metadata() {
    let metadata_program = Pubkey::new_unique();
    let mint = Pubkey::new_unique();
    let (metadata, bump) = Pubkey::find_program_address(
        &[b"metadata", metadata_program.as_ref(), mint.as_ref()],
        &metadata_program,
    );
    let collection = stored(&Pubkey::new_unique());
    let creators = vec![Creator { address: collection, verified: true }];
    let strangers = vec![Creator { address: stored(&mint), verified: true }];
    let mut obligation =
        honey::obligation::Obligation::new(stored(&Pubkey::new_unique()), collection);
    let deposit = honey::instructions::deposit_nft::handler;
    let withdraw = honey::instructions::withdraw_nft::handler;
    let program = stored(&metadata_program);
    assert_eq!(
        deposit(
            &mut obligation,
            &strangers,
            &collection,
            bump,
            &stored(&metadata),
            &stored(&mint),
            &program
        ),
        Err(ErrorCode::VerifiedCreatorMismatch)
    );
    assert_eq!(
        deposit(
            &mut obligation,
            &creators,
            &collection,
            bump,
            &stored(&mint),
            &stored(&mint),
            &program
        ),
        Err(ErrorCode::KeyMismatch)
    );
    assert_eq!(
        deposit(
            &mut obligation,
            &creators,
            &collection,
            bump,
            &stored(&metadata),
            &stored(&mint),
            &program
        ),
        Ok(1)
    );
    assert_eq!(
        deposit(
            &mut obligation,
            &creators,
            &collection,
            bump,
            &stored(&metadata),
            &stored(&mint),
            &program
        ),
        Err(ErrorCode::DuplicateCollateral)
    );
    let market = honey::market::MarketReserves::new();
    let oracle = honey::market::MarketOracle { price: honey::number::Number::from_u64(3) };
    assert_eq!(
        withdraw(
            &market,
            &oracle,
            &mut obligation,
            &creators,
            &collection,
            bump,
            &stored(&metadata),
            &stored(&mint),
            &program,
            0
        ),
        Ok(1)
    );
    assert_eq!(
        withdraw(
            &market,
            &oracle,
            &mut obligation,
            &creators,
            &collection,
            bump,
            &stored(&metadata),
            &stored(&mint),
            &program,
            0
        ),
        Err(ErrorCode::UnregisteredCollateral)
    );
}

#[test]
fn safe_arithmetic_reports_what_does_not_fit() {
    assert_eq!(5u32.safe_add(6), Ok(11));
    assert_eq!(u32::MAX.safe_add(1), Err(ErrorCode::Overflow));
    assert_eq!(5u32.safe_sub(6), Err(ErrorCode::Overflow));
    assert_eq!(6u32.safe_sub(5), Ok(1));
    assert_eq!(65536u32.safe_mul(65536), Err(ErrorCode::Overflow));
    assert_eq!(65535u32.safe_mul(65537), Ok(u32::MAX));
    assert_eq!(7u32.safe_div(0), Err(ErrorCode::Overflow));
    assert_eq!(7u32.safe_div(2), Ok(3));
    assert_eq!(u64::MAX.safe_add(1), Err(ErrorCode::Overflow));
    assert_eq!(1u64.safe_add(2), Ok(3));
    assert_eq!(0u64.safe_sub(1), Err(ErrorCode::Overflow));
    assert_eq!(9u64.safe_sub(1), Ok(8));
    assert_eq!((1u64 << 32).safe_mul(1 << 32), Err(ErrorCode::Overflow));
    assert_eq!(3u64.safe_mul(4), Ok(12));
    assert_eq!(1u64.safe_div(0), Err(ErrorCode::Overflow));
    assert_eq!(9u64.safe_div(4), Ok(2));
    assert_eq!(u128::MAX.safe_add(1), Err(ErrorCode::Overflow));
    assert_eq!(1u128.safe_add(1), Ok(2));
    assert_eq!(0u128.safe_sub(1), Err(ErrorCode::Overflow));
    assert_eq!(4u128.safe_sub(1), Ok(3));
    assert_eq!((1u128 << 64).safe_mul(1 << 64), Err(ErrorCode::Overflow));
    assert_eq!(6u128.safe_mul(7), Ok(42));
    assert_eq!(1u128.safe_div(0), Err(ErrorCode::Overflow));
    assert_eq!(100u128.safe_div(7), Ok(14));
}

#[test]
fn only_empty_accounts_pass() {
    assert_eq!(verify_account_empty(0), Ok(()));
    assert_eq!(verify_account_empty(1), Err(ErrorCode::AccountNotEmpty));
}

#[test]
fn keys_compare_by_their_bytes() {
    let a = StoredPubkey::new([1; 32]);
    let mut bytes = [1u8; 32];
    bytes[31] = 2;
    let b = StoredPubkey::new(bytes);
    assert!(a.equals(&StoredPubkey::new([1; 32])));
    assert!(!a.equals(&b));
    assert_eq!(b.to_vec(), bytes.to_vec());
    assert_eq!(StoredPubkey::zeroed().to_bytes(), [0u8; 32]);
}
