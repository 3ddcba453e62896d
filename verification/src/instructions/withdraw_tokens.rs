//! Withdrawing tokens from a reserve.

use vstd::prelude::*;
use crate::common::{checked_notes_spec, Amount, AmountUnits, Rounding};
use crate::errors::ErrorCode;
use crate::instructions::deposit_tokens::DepositOutcome;
use crate::market::{snapshot_at, MarketReserves, ReserveInfo};
use crate::reserve::{Reserve, ReserveState};

verus! {

/// What a withdrawal of `amount` moves: the tokens to hand out, rounded
/// down, and the deposit notes to burn for them, rounded up. It fails
/// with `StaleData` where the reserve has no fresh snapshot, with
/// `InvalidUnits` for an amount in loan notes and with `Overflow` where
/// an amount cannot be computed or the reserve holds less.
pub open spec fn withdraw_outcome(
    market: Seq<ReserveInfo>,
    reserve: Reserve,
    current_slot: u64,
    amount: Amount,
) -> Result<DepositOutcome, ErrorCode> {
    match snapshot_at(market, reserve.index as int, current_slot) {
        None => Err(ErrorCode::StaleData),
        Some(info) => if !amount.tokens_defined(&info, Rounding::Down) {
            Err(ErrorCode::Overflow)
        } else {
            match checked_notes_spec(
                amount,
                AmountUnits::DepositNotes,
                info.deposit_note_exchange_rate@,
                Rounding::Up,
            ) {
                Err(e) => Err(e),
                Ok(note_amount) => {
                    let token_amount = amount.tokens_spec(&info, Rounding::Down) as u64;
                    if token_amount > reserve.state_spec().total_deposits || note_amount
                        > reserve.state_spec().total_deposit_notes {
                        Err(ErrorCode::Overflow)
                    } else {
                        Ok(DepositOutcome { token_amount, note_amount })
                    }
                },
            }
        },
    }
}

/// Withdraws `amount` from the reserve. On an error nothing changes.
pub fn handler(
    market_reserves: &MarketReserves,
    reserve: &mut Reserve,
    current_slot: u64,
    amount: Amount,
) -> (r: Result<DepositOutcome, ErrorCode>)
    ensures
        r == withdraw_outcome(market_reserves@, *old(reserve), current_slot, amount),
        r is Err ==> *final(reserve) == *old(reserve),
        r is Ok ==> old(reserve).same_but_state_value(final(reserve)),
        r is Ok ==> final(reserve).state_spec() == (
            ReserveState {
                total_deposits: (
                    old(reserve).state_spec().total_deposits - r->Ok_0.token_amount
                ) as u64,
                total_deposit_notes: (
                    old(reserve).state_spec().total_deposit_notes - r->Ok_0.note_amount
                ) as u64,
                ..old(reserve).state_spec()
            }
        ),
{
    let reserve_info = match market_reserves.try_get_cached(reserve.index, current_slot) {
        Err(e) => {
            return Err(e);
        },
        Ok(info) => info,
    };
    let token_amount = match amount.checked_as_tokens(reserve_info, Rounding::Down) {
        Err(e) => {
            return Err(e);
        },
        Ok(v) => v,
    };
    let note_amount = match amount.checked_as_deposit_notes(reserve_info, Rounding::Up) {
        Err(e) => {
            return Err(e);
        },
        Ok(v) => v,
    };
    if token_amount > reserve.total_deposits() || note_amount > reserve.total_deposit_notes() {
        return Err(ErrorCode::Overflow);
    }
    reserve.withdraw(token_amount, note_amount);
    Ok(DepositOutcome { token_amount, note_amount })
}

} // verus!
