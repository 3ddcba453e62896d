//! Repaying a loan.

use vstd::prelude::*;
use crate::common::{checked_notes_spec, Amount, AmountUnits, Rounding};
use crate::errors::ErrorCode;
use crate::instructions::execute_liquidate_bid::{
    loans_after_repay, payoff_tokens, payoff_tokens_spec, record_result, smaller, Payoff,
};
use crate::keys::StoredPubkey;
use crate::market::{snapshot_at, MarketReserves, ReserveInfo};
use crate::obligation::{Obligation, Position};
use crate::reserve::Reserve;

verus! {

/// What repaying `amount` gives: the notes to burn, which are what the
/// amount is in loan notes, rounded down, but no more than the loan
/// account holds, and the tokens that they repay. In this order it
/// fails with `StaleData` where the reserve has no fresh snapshot, with
/// `InvalidUnits` for an amount in deposit notes, with what keeps the
/// payoff from being computed, and with what keeps the repayment from
/// being recorded.
pub open spec fn repay_result(
    market: Seq<ReserveInfo>,
    reserve: Reserve,
    loans: Seq<Option<Position>>,
    loan_account: Seq<u8>,
    loan_notes_balance: u64,
    current_slot: u64,
    amount: Amount,
) -> Result<Payoff, ErrorCode> {
    match snapshot_at(market, reserve.index as int, current_slot) {
        None => Err(ErrorCode::StaleData),
        Some(info) => match checked_notes_spec(
            amount,
            AmountUnits::LoanNotes,
            info.loan_note_exchange_rate@,
            Rounding::Down,
        ) {
            Err(e) => Err(e),
            Ok(asked) => {
                let notes = smaller(asked as nat, loan_notes_balance as nat) as u64;
                match payoff_tokens_spec(info, reserve, current_slot, notes) {
                    Err(e) => Err(e),
                    Ok(tokens) => match record_result(
                        reserve,
                        loans,
                        loan_account,
                        current_slot,
                        Payoff { notes, tokens },
                    ) {
                        Err(e) => Err(e),
                        Ok(()) => Ok(Payoff { notes, tokens }),
                    },
                }
            },
        },
    }
}

/// Repays `amount` of the loan on the loan account. On an error nothing
/// changes.
pub fn handler(
    market_reserves: &MarketReserves,
    reserve: &mut Reserve,
    obligation: &mut Obligation,
    loan_account: &StoredPubkey,
    loan_notes_balance: u64,
    current_slot: u64,
    amount: Amount,
) -> (r: Result<Payoff, ErrorCode>)
    requires
        old(obligation).wf(),
    ensures
        final(obligation).wf(),
        r == repay_result(
            market_reserves@,
            *old(reserve),
            old(obligation).loans_spec(),
            loan_account@,
            loan_notes_balance,
            current_slot,
            amount,
        ),
        r is Err ==> *final(reserve) == *old(reserve) && old(obligation).same_as(
            final(obligation),
        ),
        r is Ok ==> old(reserve).same_but_state_value(final(reserve)),
        r is Ok ==> Reserve::repaid(
            old(reserve).state_spec(),
            final(reserve).state_spec(),
            r->Ok_0.tokens,
            r->Ok_0.notes,
        ),
        r is Ok ==> old(obligation).same_parties(final(obligation)),
        r is Ok ==> final(obligation).collateral_spec() == old(obligation).collateral_spec(),
        r is Ok ==> final(obligation).loans_spec() == loans_after_repay(
            old(obligation).loans_spec(),
            *old(reserve),
            loan_account@,
            r->Ok_0.notes,
        ),
        r is Ok ==> final(obligation).cached_spec().invalidation_of(
            old(obligation).cached_spec(),
        ),
{
    let reserve_info = match market_reserves.try_get_cached(reserve.index, current_slot) {
        Err(e) => {
            return Err(e);
        },
        Ok(info) => info,
    };
    let asked = match amount.checked_as_loan_notes(reserve_info, Rounding::Down) {
        Err(e) => {
            return Err(e);
        },
        Ok(v) => v,
    };
    let payoff_notes = if asked <= loan_notes_balance {
        asked
    } else {
        loan_notes_balance
    };
    let tokens = match payoff_tokens(reserve_info, reserve, current_slot, payoff_notes) {
        Err(e) => {
            return Err(e);
        },
        Ok(t) => t,
    };
    let mut next_reserve = *reserve;
    match next_reserve.try_repay(current_slot, tokens, payoff_notes) {
        Err(e) => {
            return Err(e);
        },
        Ok(()) => {},
    }
    let notes = match reserve.checked_amount(payoff_notes) {
        None => {
            return Err(ErrorCode::Overflow);
        },
        Some(n) => n,
    };
    let mut next_obligation = obligation.duplicate();
    match next_obligation.repay(loan_account, notes) {
        Err(e) => {
            return Err(e);
        },
        Ok(()) => {},
    }
    *reserve = next_reserve;
    *obligation = next_obligation;
    Ok(Payoff { notes: payoff_notes, tokens })
}

} // verus!
