//! Raising the limit of a bid.

use vstd::prelude::*;
use crate::bid::{increase_result, increased_limit, Bid};
use crate::errors::ErrorCode;
use crate::utils::SafeCalc;

verus! {

/// Raises the bid's limit by `bid_increase` and gives the tokens that
/// the bidder is to add to the escrow, which are the increase. Where
/// the new limit does not fit in 64 bits it fails with `Overflow` and
/// the bid stays as it was.
pub fn handler(bid: &mut Bid, bid_increase: u64) -> (r: Result<u64, ErrorCode>)
    ensures
        r == increase_result(old(bid).bid_limit, bid_increase),
        *final(bid) == (Bid {
            bid_limit: increased_limit(old(bid).bid_limit, bid_increase),
            ..*old(bid)
        }),
{
    match bid.bid_limit.safe_add(bid_increase) {
        Err(e) => Err(e),
        Ok(limit) => {
            bid.bid_limit = limit;
            Ok(bid_increase)
        },
    }
}

} // verus!
