//! Depositing tokens into a reserve.

use vstd::prelude::*;
use crate::common::{checked_notes_spec, Amount, AmountUnits, Rounding};
use crate::errors::ErrorCode;
use crate::market::{snapshot_at, MarketReserves, ReserveInfo};
use crate::reserve::{Reserve, ReserveState};

verus! {

/// What a deposit moves: the tokens to take into the vault and the
/// deposit notes to mint for them.
#[derive(Clone, Copy, Debug, PartialEq, Eq, Structural)]
pub struct DepositOutcome {
    pub token_amount: u64,
    pub note_amount: u64,
}

/// What a deposit of `amount` moves. The tokens are rounded up and the
/// notes down. It fails with `StaleData` where the reserve has no fresh
/// snapshot, with `InvalidUnits` for an amount in loan notes and with
/// `Overflow` where an amount cannot be computed or counted.
pub open spec fn deposit_outcome(
    market: Seq<ReserveInfo>,
    reserve: Reserve,
    current_slot: u64,
    amount: Amount,
) -> Result<DepositOutcome, ErrorCode> {
    match snapshot_at(market, reserve.index as int, current_slot) {
        None => Err(ErrorCode::StaleData),
        Some(info) => if !amount.tokens_defined(&info, Rounding::Up) {
            Err(ErrorCode::Overflow)
        } else {
            match checked_notes_spec(
                amount,
                AmountUnits::DepositNotes,
                info.deposit_note_exchange_rate@,
                Rounding::Down,
            ) {
                Err(e) => Err(e),
                Ok(note_amount) => {
                    let token_amount = amount.tokens_spec(&info, Rounding::Up) as u64;
                    match reserve.deposit_result(token_amount, note_amount) {
                        Err(e) => Err(e),
                        Ok(()) => Ok(DepositOutcome { token_amount, note_amount }),
                    }
                },
            }
        },
    }
}

/// Deposits `amount` into the reserve. On an error nothing changes.
pub fn handler(
    market_reserves: &MarketReserves,
    reserve: &mut Reserve,
    current_slot: u64,
    amount: Amount,
) -> (r: Result<DepositOutcome, ErrorCode>)
    ensures
        r == deposit_outcome(market_reserves@, *old(reserve), current_slot, amount),
        r is Err ==> *final(reserve) == *old(reserve),
        r is Ok ==> old(reserve).same_but_state_value(final(reserve)),
        r is Ok ==> final(reserve).state_spec() == (
            ReserveState {
                total_deposits: (
                    old(reserve).state_spec().total_deposits + r->Ok_0.token_amount
                ) as u64,
                total_deposit_notes: (
                    old(reserve).state_spec().total_deposit_notes + r->Ok_0.note_amount
                ) as u64,
                ..old(reserve).state_spec()
            }
        ),
{
    let reserve_info = match market_reserves.try_get_cached(reserve.index, current_slot) {
        Err(e) => {
            return Err(e);
        },
        Ok(info) => info,
    };
    let token_amount = match amount.checked_as_tokens(reserve_info, Rounding::Up) {
        Err(e) => {
            return Err(e);
        },
        Ok(v) => v,
    };
    let note_amount = match amount.checked_as_deposit_notes(reserve_info, Rounding::Down) {
        Err(e) => {
            return Err(e);
        },
        Ok(v) => v,
    };
    match reserve.try_deposit(token_amount, note_amount) {
        Err(e) => Err(e),
        Ok(()) => Ok(DepositOutcome { token_amount, note_amount }),
    }
}

} // verus!
