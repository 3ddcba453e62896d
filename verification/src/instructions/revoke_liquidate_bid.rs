//! Revoking a bid: the escrow goes back to the bidder.

use vstd::prelude::*;
use crate::bid::Bid;

verus! {

/// Ends the bid and gives the tokens to move from the escrow back to
/// the bidder before the escrow is closed: all of the bid's limit.
pub fn handler(bid: Bid) -> (r: u64)
    ensures
        r == bid.bid_limit,
{
    bid.bid_limit
}

} // verus!
