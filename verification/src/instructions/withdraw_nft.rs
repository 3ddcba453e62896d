//! Taking a collateral item back from an obligation.

use vstd::prelude::*;
use crate::errors::ErrorCode;
use crate::keys::StoredPubkey;
use crate::market::{MarketOracle, MarketReserves, ReserveInfo};
use crate::obligation::{holds_key, key_index, Obligation, Position};
use crate::slots::occupied;
use crate::valuation::revalued_health;
use crate::utils::{has_verified_creator, validate, validate_spec, verify_valid_metadata, Creator};

verus! {

/// What taking the item back gives: the number of items to move out of
/// the market's custody, which is one. In this order it fails with what
/// keeps the metadata account from being accepted,
/// `VerifiedCreatorMismatch` where the item is not of the market's
/// collection, `UnregisteredCollateral` where it is not collateral of
/// the obligation, with what keeps the obligation from being valued
/// without it, and `ObligationUnhealthy` where the collateral that is
/// left does not cover the loans.
pub open spec fn withdraw_result(
    market: Seq<ReserveInfo>,
    price: nat,
    loans: Seq<Option<Position>>,
    collateral: Seq<Option<StoredPubkey>>,
    creators: Seq<Creator>,
    nft_collection_creator: Seq<u8>,
    metadata_bump: u8,
    metadata: Seq<u8>,
    deposit_nft_mint: Seq<u8>,
    metadata_program_id: Seq<u8>,
    current_slot: u64,
) -> Result<u64, ErrorCode> {
    match validate_spec(metadata_bump, metadata, deposit_nft_mint, metadata_program_id) {
        Err(e) => Err(e),
        Ok(()) => if !has_verified_creator(creators, nft_collection_creator) {
            Err(ErrorCode::VerifiedCreatorMismatch)
        } else if !holds_key(collateral, deposit_nft_mint) {
            Err(ErrorCode::UnregisteredCollateral)
        } else {
            match revalued_health(
                loans,
                (occupied(collateral) - 1) as nat,
                price,
                market,
                current_slot,
            ) {
                Err(e) => Err(e),
                Ok(healthy) => if healthy {
                    Ok(1)
                } else {
                    Err(ErrorCode::ObligationUnhealthy)
                },
            }
        },
    }
}

/// Takes the item back from the obligation, which must stay healthy
/// without it. On an error nothing changes.
pub fn handler(
    market_reserves: &MarketReserves,
    market_oracle: &MarketOracle,
    obligation: &mut Obligation,
    creators: &Vec<Creator>,
    nft_collection_creator: &StoredPubkey,
    metadata_bump: u8,
    metadata: &StoredPubkey,
    deposit_nft_mint: &StoredPubkey,
    metadata_program_id: &StoredPubkey,
    current_slot: u64,
) -> (r: Result<u64, ErrorCode>)
    requires
        old(obligation).wf(),
    ensures
        final(obligation).wf(),
        r == withdraw_result(
            market_reserves@,
            market_oracle.price@,
            old(obligation).loans_spec(),
            old(obligation).collateral_spec(),
            creators@,
            nft_collection_creator@,
            metadata_bump,
            metadata@,
            deposit_nft_mint@,
            metadata_program_id@,
            current_slot,
        ),
        r is Err ==> old(obligation).same_as(final(obligation)),
        r is Ok ==> old(obligation).same_parties(final(obligation)),
        r is Ok ==> final(obligation).loans_spec() == old(obligation).loans_spec(),
        r is Ok ==> final(obligation).collateral_spec() == old(obligation).collateral_spec().update(
            key_index(old(obligation).collateral_spec(), deposit_nft_mint@),
            None,
        ),
        r is Ok ==> final(obligation).valued_at(
            market_reserves@,
            current_slot,
            market_oracle.price@,
        ),
        r is Ok ==> final(obligation).healthy_at(
            market_reserves@,
            current_slot,
            market_oracle.price@,
        ),
{
    match validate(metadata_bump, metadata, deposit_nft_mint, metadata_program_id) {
        Err(e) => {
            return Err(e);
        },
        Ok(()) => {},
    }
    match verify_valid_metadata(creators, nft_collection_creator) {
        Err(e) => {
            return Err(e);
        },
        Ok(()) => {},
    }
    let note_amount: u64 = 1;
    let mut next = obligation.duplicate();
    match next.unregister_nft(*deposit_nft_mint) {
        Err(e) => {
            return Err(e);
        },
        Ok(()) => {},
    }
    match next.revalue(market_reserves, current_slot, market_oracle) {
        Err(e) => {
            return Err(e);
        },
        Ok(healthy) => {
            if !healthy {
                return Err(ErrorCode::ObligationUnhealthy);
            }
        },
    }
    *obligation = next;
    Ok(note_amount)
}

} // verus!
