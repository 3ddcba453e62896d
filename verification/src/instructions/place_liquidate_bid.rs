//! Placing a bid: the bidder funds an escrow that an authority derived
//! for the bid controls.

use vstd::prelude::*;
use crate::bid::Bid;
use crate::errors::ErrorCode;
use crate::keys::{
    bytes_of, find_program_address, is_found, none_found, program_address, with_bump, StoredPubkey,
};

verus! {

/// The accounts that take part in a bid.
#[derive(Clone, Copy, Debug)]
pub struct BidAccounts {
    pub market: StoredPubkey,
    pub bid_escrow: StoredPubkey,
    pub bid_escrow_authority: StoredPubkey,
    pub bid_mint: StoredPubkey,
    pub bidder: StoredPubkey,
}

/// Whether `bid` is the bid that these accounts place with `bid_limit`
/// tokens under the authority derived with `bump`.
pub open spec fn is_placed(bid: Bid, accounts: BidAccounts, bump: u8, bid_limit: u64) -> bool {
    &&& bid.market == accounts.market
    &&& bid.bid_escrow == accounts.bid_escrow
    &&& bid.bid_escrow_authority@ == accounts.bid_escrow_authority@
    &&& bid.bid_mint == accounts.bid_mint
    &&& bid.authority_bump_seed@ == seq![bump]
    &&& bid.authority_seed == accounts.bid_escrow
    &&& bid.bidder == accounts.bidder
    &&& bid.bid_limit == bid_limit
}

/// Places the bid where the authority that was derived for its escrow
/// is the one that the accounts name: the bid then records the accounts,
/// the bump and the limit. Without a derived authority it fails with
/// `InvalidParameter`, and with another one than the accounts name with
/// `ObligationHealthy`.
pub fn place(accounts: &BidAccounts, derived: Option<(StoredPubkey, u8)>, bid_limit: u64) -> (r:
    Result<Bid, ErrorCode>)
    ensures
        match derived {
            None => r == Err::<Bid, ErrorCode>(ErrorCode::InvalidParameter),
            Some((authority, bump)) => if authority@ == accounts.bid_escrow_authority@ {
                r is Ok && is_placed(r->Ok_0, *accounts, bump, bid_limit)
            } else {
                r == Err::<Bid, ErrorCode>(ErrorCode::ObligationHealthy)
            },
        },
{
    let (authority, authority_seed) = match derived {
        None => {
            return Err(ErrorCode::InvalidParameter);
        },
        Some(found) => found,
    };
    if !accounts.bid_escrow_authority.equals(&authority) {
        return Err(ErrorCode::ObligationHealthy);
    }
    let bump = [authority_seed];
    assert(bump@ =~= seq![authority_seed]);
    Ok(
        Bid {
            market: accounts.market,
            bid_escrow: accounts.bid_escrow,
            bid_escrow_authority: authority,
            bid_mint: accounts.bid_mint,
            authority_bump_seed: bump,
            authority_seed: accounts.bid_escrow,
            bidder: accounts.bidder,
            bid_limit,
        },
    )
}

/// Places a bid of `bid_limit` tokens: derives the authority over the
/// escrow from the escrow's key under the program and, where that is
/// the authority that the accounts name, gives the bid and the tokens
/// that the bidder is to put into the escrow, which are the bid's
/// limit. It fails as `place` does.
pub fn handler(program_id: &StoredPubkey, accounts: &BidAccounts, bid_limit: u64) -> (r: Result<
    (Bid, u64),
    ErrorCode,
>)
    ensures
        none_found(seq![accounts.bid_escrow@], program_id@) ==> r == Err::<(Bid, u64), ErrorCode>(
            ErrorCode::InvalidParameter,
        ),
        forall|bump: u8, key: Seq<u8>| #[trigger]
            is_found(seq![accounts.bid_escrow@], program_id@, bump, key) ==> if key
                == accounts.bid_escrow_authority@ {
                r is Ok && r->Ok_0.1 == bid_limit && is_placed(
                    r->Ok_0.0,
                    *accounts,
                    bump,
                    bid_limit,
                )
            } else {
                r == Err::<(Bid, u64), ErrorCode>(ErrorCode::ObligationHealthy)
            },
{
    let mut initial_seeds: Vec<Vec<u8>> = Vec::new();
    initial_seeds.push(accounts.bid_escrow.to_vec());
    proof {
        assert(bytes_of(initial_seeds@) =~= seq![accounts.bid_escrow@]);
    }
    let derived = find_program_address(&initial_seeds, program_id);
    proof {
        let seeds = seq![accounts.bid_escrow@];
        match derived {
            None => {
                assert forall|bump: u8, key: Seq<u8>| #[trigger]
                    is_found(seeds, program_id@, bump, key) implies false by {
                    assert(program_address(with_bump(seeds, bump), program_id@) is None);
                }
            },
            Some((found, found_bump)) => {
                assert(program_address(with_bump(seeds, found_bump), program_id@) is Some);
                assert forall|bump: u8, key: Seq<u8>| #[trigger]
                    is_found(seeds, program_id@, bump, key) implies bump == found_bump && key
                    == found@ by {
                    if bump < found_bump {
                        assert(program_address(with_bump(seeds, found_bump), program_id@) is None);
                    } else if found_bump < bump {
                        assert(program_address(with_bump(seeds, bump), program_id@) is None);
                    }
                }
            },
        }
    }
    match place(accounts, derived, bid_limit) {
        Err(e) => Err(e),
        Ok(bid) => Ok((bid, bid_limit)),
    }
}

} // verus!
