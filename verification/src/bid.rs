//! A liquidator's standing bid, funded up front in an escrow.

use vstd::prelude::*;
use crate::errors::ErrorCode;
use crate::keys::{bytes_of, with_bump, StoredPubkey};

verus! {

/// A bid to take over the debt of an unhealthy obligation of a market
/// in exchange for its collateral.
#[derive(Clone, Copy, Debug)]
pub struct Bid {
    pub market: StoredPubkey,
    /// The account that holds the tokens of the bid.
    pub bid_escrow: StoredPubkey,
    /// The authority over the escrow, derived for this bid.
    pub bid_escrow_authority: StoredPubkey,
    /// The token that the bid is made in.
    pub bid_mint: StoredPubkey,
    /// The bump with which the authority was derived.
    pub authority_bump_seed: [u8; 1],
    /// The seed from which the authority was derived.
    pub authority_seed: StoredPubkey,
    pub bidder: StoredPubkey,
    /// The tokens that the bidder put into the escrow.
    pub bid_limit: u64,
}

impl Default for Bid {
    fn default() -> (r: Bid)
        ensures
            r.bid_limit == 0,
            r.authority_bump_seed@ == seq![0u8],
            r.market@ == Seq::new(32, |i: int| 0u8),
            r.bid_escrow@ == Seq::new(32, |i: int| 0u8),
            r.bid_escrow_authority@ == Seq::new(32, |i: int| 0u8),
            r.bid_mint@ == Seq::new(32, |i: int| 0u8),
            r.authority_seed@ == Seq::new(32, |i: int| 0u8),
            r.bidder@ == Seq::new(32, |i: int| 0u8),
    {
        let bump = [0u8; 1];
        assert(bump@ =~= seq![0u8]);
        Bid {
            market: StoredPubkey::zeroed(),
            bid_escrow: StoredPubkey::zeroed(),
            bid_escrow_authority: StoredPubkey::zeroed(),
            bid_mint: StoredPubkey::zeroed(),
            authority_bump_seed: bump,
            authority_seed: StoredPubkey::zeroed(),
            bidder: StoredPubkey::zeroed(),
            bid_limit: 0,
        }
    }
}

impl Bid {
    /// The seeds with which the authority over the escrow signs: the
    /// seed that it was derived from and the bump.
    pub fn authority_seeds(&self) -> (r: Vec<Vec<u8>>)
        ensures
            bytes_of(r@) == with_bump(seq![self.authority_seed@], self.authority_bump_seed@[0]),
    {
        let mut seeds: Vec<Vec<u8>> = Vec::new();
        seeds.push(self.authority_seed.to_vec());
        let mut bump: Vec<u8> = Vec::new();
        bump.push(self.authority_bump_seed[0]);
        seeds.push(bump);
        proof {
            assert(bump@ =~= seq![self.authority_bump_seed@[0]]);
            assert(bytes_of(seeds@) =~= with_bump(
                seq![self.authority_seed@],
                self.authority_bump_seed@[0],
            ));
        }
        seeds
    }
}

/// The limit of a bid of `limit` tokens once it was asked to increase
/// by `increase`: an increase that would not fit in 64 bits changes
/// nothing.
pub open spec fn increased_limit(limit: u64, increase: u64) -> u64 {
    if limit + increase <= u64::MAX {
        (limit + increase) as u64
    } else {
        limit
    }
}

/// The tokens that go into the escrow when a bid of `limit` tokens is
/// asked to increase by `increase`: the increase, or `Overflow` and
/// nothing where the new limit would not fit in 64 bits.
pub open spec fn increase_result(limit: u64, increase: u64) -> Result<u64, ErrorCode> {
    if limit + increase <= u64::MAX {
        Ok(increase)
    } else {
        Err(ErrorCode::Overflow)
    }
}

/// The limit of a bid placed with `limit` tokens after it was asked to
/// increase by each of `increases` in turn.
pub open spec fn limit_after(limit: u64, increases: Seq<u64>) -> u64
    decreases increases.len(),
{
    if increases.len() == 0 {
        limit
    } else {
        increased_limit(limit_after(limit, increases.drop_last()), increases.last())
    }
}

/// The tokens in the escrow of a bid placed with `limit` tokens after
/// it was asked to increase by each of `increases` in turn: placing
/// the bid puts the limit into the escrow, and each increase puts in
/// what it gives.
pub open spec fn escrow_after(limit: u64, increases: Seq<u64>) -> nat
    decreases increases.len(),
{
    if increases.len() == 0 {
        limit as nat
    } else {
        let escrow = escrow_after(limit, increases.drop_last());
        match increase_result(limit_after(limit, increases.drop_last()), increases.last()) {
            Ok(tokens) => escrow + (tokens as nat),
            Err(_) => escrow,
        }
    }
}

/// From the placing of a bid until it is executed or revoked, whatever
/// increases were asked for, the escrow holds the bid's limit.
pub proof fn lemma_escrow_holds_limit(limit: u64, increases: Seq<u64>)
    ensures
        escrow_after(limit, increases) == limit_after(limit, increases),
    decreases increases.len(),
{
    if increases.len() > 0 {
        lemma_escrow_holds_limit(limit, increases.drop_last());
    }
}

} // verus!
