//! Setting up an obligation.

use vstd::prelude::*;
use crate::keys::StoredPubkey;
use crate::obligation::Obligation;
use crate::slots::occupied;

verus! {

/// The obligation of `borrower` in `market`, without collateral and
/// without loans.
pub fn handler(market: StoredPubkey, borrower: StoredPubkey) -> (r: Obligation)
    ensures
        r.wf(),
        r.market_spec() == market,
        r.owner_spec() == borrower,
        occupied(r.collateral_spec()) == 0,
        occupied(r.loans_spec()) == 0,
{
    Obligation::new(market, borrower)
}

} // verus!
