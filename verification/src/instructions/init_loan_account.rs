//! Registering an account for the loan notes of a reserve with an
//! obligation.

use vstd::prelude::*;
use crate::errors::ErrorCode;
use crate::keys::StoredPubkey;
use crate::number::Number;
use crate::obligation::{register_loan_result, Obligation, Position, Side};
use crate::slots::first_free;
use crate::reserve::Reserve;

verus! {

/// Registers the account as the obligation's loan account for the
/// reserve. It fails as `Obligation::register_loan` does, and then
/// nothing changes.
pub fn handler(obligation: &mut Obligation, reserve: &Reserve, account: &StoredPubkey) -> (r:
    Result<(), ErrorCode>)
    requires
        old(obligation).wf(),
    ensures
        final(obligation).wf(),
        old(obligation).same_parties(final(obligation)),
        final(obligation).collateral_spec() == old(obligation).collateral_spec(),
        final(obligation).cached_spec() == old(obligation).cached_spec(),
        r == register_loan_result(old(obligation).loans_spec(), account@, reserve.index),
        r is Err ==> final(obligation).loans_spec() == old(obligation).loans_spec(),
        r is Ok ==> final(obligation).loans_spec() == old(obligation).loans_spec().update(
            first_free(old(obligation).loans_spec()),
            Some(
                Position {
                    account: *account,
                    amount: Number::from_raw(0),
                    side: Side::Loan,
                    reserve_index: reserve.index,
                },
            ),
        ),
{
    obligation.register_loan(account, reserve.index)
}

} // verus!
