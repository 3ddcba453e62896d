//! Liquidating an unhealthy obligation at a price found on another
//! market: part of the debt is repaid, the collateral stays.

use vstd::prelude::*;
use crate::common::{Amount, Rounding};
use crate::errors::ErrorCode;
use crate::instructions::execute_liquidate_bid::{loans_after_repay, Payoff};
use crate::instructions::repay::repay_result;
use crate::keys::StoredPubkey;
use crate::market::{snapshot_at, MarketOracle, MarketReserves, ReserveInfo};
use crate::number::{lemma_pow10_values, one, Number};
use crate::obligation::{Obligation, Position};
use crate::slots::occupied;
use crate::valuation::revalued_health;
use crate::reserve::Reserve;

verus! {

/// What liquidating at the price `amount` gives: the notes to burn and
/// the tokens that they repay. The price of one collateral item is the
/// whole number of tokens that `amount` is worth, rounded down. In this
/// order it fails with `StaleData` where the reserve has no fresh
/// snapshot, `Overflow` where the price cannot be computed, with what
/// keeps the obligation from being valued, `ObligationHealthy` where
/// the collateral covers the loans at that price, and as the repayment
/// of `amount` does.
pub open spec fn liquidate_result(
    market: Seq<ReserveInfo>,
    reserve: Reserve,
    loans: Seq<Option<Position>>,
    collateral_count: nat,
    loan_account: Seq<u8>,
    loan_notes_balance: u64,
    current_slot: u64,
    amount: Amount,
) -> Result<Payoff, ErrorCode> {
    match snapshot_at(market, reserve.index as int, current_slot) {
        None => Err(ErrorCode::StaleData),
        Some(info) => if !amount.tokens_defined(&info, Rounding::Down) {
            Err(ErrorCode::Overflow)
        } else {
            match revalued_health(
                loans,
                collateral_count,
                amount.tokens_spec(&info, Rounding::Down) * one(),
                market,
                current_slot,
            ) {
                Err(e) => Err(e),
                Ok(healthy) => if healthy {
                    Err(ErrorCode::ObligationHealthy)
                } else {
                    repay_result(
                        market,
                        reserve,
                        loans,
                        loan_account,
                        loan_notes_balance,
                        current_slot,
                        amount,
                    )
                },
            }
        },
    }
}

/// Liquidates the obligation at the price `amount`. On an error nothing
/// changes.
pub fn handler(
    market_reserves: &MarketReserves,
    reserve: &mut Reserve,
    obligation: &mut Obligation,
    loan_account: &StoredPubkey,
    loan_notes_balance: u64,
    current_slot: u64,
    amount: Amount,
) -> (r: Result<Payoff, ErrorCode>)
    requires
        old(obligation).wf(),
    ensures
        final(obligation).wf(),
        r == liquidate_result(
            market_reserves@,
            *old(reserve),
            old(obligation).loans_spec(),
            occupied(old(obligation).collateral_spec()),
            loan_account@,
            loan_notes_balance,
            current_slot,
            amount,
        ),
        r is Err ==> *final(reserve) == *old(reserve) && old(obligation).same_as(
            final(obligation),
        ),
        r is Ok ==> old(reserve).same_but_state_value(final(reserve)),
        r is Ok ==> Reserve::repaid(
            old(reserve).state_spec(),
            final(reserve).state_spec(),
            r->Ok_0.tokens,
            r->Ok_0.notes,
        ),
        r is Ok ==> old(obligation).same_parties(final(obligation)),
        r is Ok ==> final(obligation).collateral_spec() == old(obligation).collateral_spec(),
        r is Ok ==> final(obligation).loans_spec() == loans_after_repay(
            old(obligation).loans_spec(),
            *old(reserve),
            loan_account@,
            r->Ok_0.notes,
        ),
        r is Ok ==> final(obligation).cached_spec().invalidation_of(
            old(obligation).cached_spec(),
        ),
{
    let reserve_info = match market_reserves.try_get_cached(reserve.index, current_slot) {
        Err(e) => {
            return Err(e);
        },
        Ok(info) => info,
    };
    let price_tokens = match amount.checked_as_tokens(reserve_info, Rounding::Down) {
        Err(e) => {
            return Err(e);
        },
        Ok(v) => v,
    };
    proof {
        lemma_pow10_values();
    }
    let new_oracle = MarketOracle { price: Number::from_decimal(price_tokens as u128, 0) };
    let mut valued = obligation.duplicate();
    match valued.revalue(market_reserves, current_slot, &new_oracle) {
        Err(e) => {
            return Err(e);
        },
        Ok(healthy) => {
            if healthy {
                return Err(ErrorCode::ObligationHealthy);
            }
        },
    }
    crate::instructions::repay::handler(
        market_reserves,
        reserve,
        obligation,
        loan_account,
        loan_notes_balance,
        current_slot,
        amount,
    )
}

} // verus!
