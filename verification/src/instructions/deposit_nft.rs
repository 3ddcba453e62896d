//! Posting a collateral item with an obligation.

use vstd::prelude::*;
use crate::errors::ErrorCode;
use crate::keys::StoredPubkey;
use crate::obligation::{register_nft_result, Obligation};
use crate::slots::occupied;
use crate::utils::{has_verified_creator, validate, validate_spec, verify_valid_metadata, Creator};

verus! {

/// What posting the item gives: the number of items to move into the
/// market's custody, which is one. In this order it fails with what
/// keeps the metadata account from being accepted,
/// `VerifiedCreatorMismatch` where the item is not of the market's
/// collection, and with what keeps the obligation from registering it.
pub open spec fn deposit_result(
    held: nat,
    positions: nat,
    creators: Seq<Creator>,
    nft_collection_creator: Seq<u8>,
    metadata_bump: u8,
    metadata: Seq<u8>,
    deposit_nft_mint: Seq<u8>,
    metadata_program_id: Seq<u8>,
) -> Result<u64, ErrorCode> {
    match validate_spec(metadata_bump, metadata, deposit_nft_mint, metadata_program_id) {
        Err(e) => Err(e),
        Ok(()) => if !has_verified_creator(creators, nft_collection_creator) {
            Err(ErrorCode::VerifiedCreatorMismatch)
        } else {
            match register_nft_result(held, positions) {
                Err(e) => Err(e),
                Ok(()) => Ok(1),
            }
        },
    }
}

/// Posts the item as collateral of the obligation. On an error nothing
/// changes.
pub fn handler(
    obligation: &mut Obligation,
    creators: &Vec<Creator>,
    nft_collection_creator: &StoredPubkey,
    metadata_bump: u8,
    metadata: &StoredPubkey,
    deposit_nft_mint: &StoredPubkey,
    metadata_program_id: &StoredPubkey,
) -> (r: Result<u64, ErrorCode>)
    requires
        old(obligation).wf(),
    ensures
        final(obligation).wf(),
        r == deposit_result(
            occupied(old(obligation).collateral_spec()),
            occupied(old(obligation).loans_spec()),
            creators@,
            nft_collection_creator@,
            metadata_bump,
            metadata@,
            deposit_nft_mint@,
            metadata_program_id@,
        ),
        old(obligation).same_parties(final(obligation)),
        final(obligation).loans_spec() == old(obligation).loans_spec(),
        r is Err ==> final(obligation).cached_spec() == old(obligation).cached_spec(),
        r is Ok ==> final(obligation).cached_spec().invalidation_of(
            old(obligation).cached_spec(),
        ),
        r is Err ==> final(obligation).collateral_spec() == old(obligation).collateral_spec(),
        r is Ok ==> final(obligation).collateral_spec() == old(obligation).collateral_spec().update(
            0,
            Some(*deposit_nft_mint),
        ),
{
    match validate(metadata_bump, metadata, deposit_nft_mint, metadata_program_id) {
        Err(e) => {
            return Err(e);
        },
        Ok(()) => {},
    }
    match verify_valid_metadata(creators, nft_collection_creator) {
        Err(e) => {
            return Err(e);
        },
        Ok(()) => {},
    }
    let note_amount: u64 = 1;
    match obligation.register_nft(*deposit_nft_mint) {
        Err(e) => Err(e),
        Ok(()) => Ok(note_amount),
    }
}

} // verus!
