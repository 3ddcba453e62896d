//! Borrowing tokens from a reserve against an obligation's collateral.

use vstd::prelude::*;
use crate::common::{Amount, Rounding};
use crate::errors::ErrorCode;
use crate::keys::StoredPubkey;
use crate::market::{
    notes_of_tokens, notes_of_tokens_defined, oracle_price, oracle_price_spec, snapshot_at,
    CachedReserveInfo, MarketOracle, MarketReserves, ReserveInfo,
};
use crate::number::{exponent_ok, raw_of_decimal};
use crate::obligation::{add_result, owes_elsewhere, with_more, Obligation, Position};
use crate::slots::occupied;
use crate::valuation::revalued_health;
use crate::reserve::{fee_of, Reserve, ReserveConfig};

verus! {

/// What a loan moves: the tokens to hand to the borrower, the loan
/// notes to mint, and the fees that are owed on top of the tokens.
#[derive(Clone, Copy, Debug, PartialEq, Eq, Structural)]
pub struct BorrowOutcome {
    pub requested_tokens: u64,
    pub new_notes: u64,
    pub fees: u64,
    pub protocol_fees: u64,
}

/// The amounts of a loan of `amount`: the tokens asked for, rounded
/// down; the two fees on them; and the loan notes for the tokens and
/// the fees together, rounded up. `Overflow` where one of them cannot
/// be computed or does not fit in 64 bits.
pub open spec fn loan_amounts(
    info: CachedReserveInfo,
    config: ReserveConfig,
    amount: Amount,
) -> Result<BorrowOutcome, ErrorCode> {
    if !amount.tokens_defined(&info, Rounding::Down) {
        Err(ErrorCode::Overflow)
    } else {
        let requested = amount.tokens_spec(&info, Rounding::Down);
        let fees = fee_of(requested, config.loan_origination_fee as nat);
        let protocol_fees = fee_of(requested, config.protocol_fee_rate as nat);
        let total = requested + fees + protocol_fees;
        if fees > u64::MAX || protocol_fees > u64::MAX || total > u64::MAX
            || !notes_of_tokens_defined(total, info.loan_note_exchange_rate@, Rounding::Up) {
            Err(ErrorCode::Overflow)
        } else {
            Ok(
                BorrowOutcome {
                    requested_tokens: requested as u64,
                    new_notes: notes_of_tokens(
                        total,
                        info.loan_note_exchange_rate@,
                        Rounding::Up,
                    ) as u64,
                    fees: fees as u64,
                    protocol_fees: protocol_fees as u64,
                },
            )
        }
    }
}

/// The loan slots once `notes` loan notes of the reserve were recorded
/// on the account.
pub open spec fn loans_after(
    loans: Seq<Option<Position>>,
    reserve: Reserve,
    loan_account: Seq<u8>,
    notes: u64,
) -> Seq<Option<Position>> {
    with_more(loans, loan_account, raw_of_decimal(notes as nat, reserve.exponent as int))
}

/// What borrowing `amount` gives. In this order it fails with
/// `InvalidOraclePrice` for a price of the collateral that is none,
/// `StaleData` where the reserve has no fresh snapshot, `Overflow`
/// where an amount cannot be computed, `AnotherLoanOutstanding` while
/// the obligation owes another reserve, with what keeps the reserve or
/// the obligation from recording the loan, with what keeps the
/// obligation from being valued, and with `InsufficientCollateral`
/// where the collateral does not cover the loans with the new one.
pub open spec fn borrow_result(
    market: Seq<ReserveInfo>,
    reserve: Reserve,
    loans: Seq<Option<Position>>,
    collateral_count: nat,
    loan_account: Seq<u8>,
    nft_price_mantissa: i128,
    nft_price_scale: u32,
    current_slot: u64,
    amount: Amount,
) -> Result<BorrowOutcome, ErrorCode> {
    match oracle_price_spec(nft_price_mantissa, nft_price_scale) {
        Err(e) => Err(e),
        Ok(price) => match snapshot_at(market, reserve.index as int, current_slot) {
            None => Err(ErrorCode::StaleData),
            Some(info) => match loan_amounts(info, reserve.config, amount) {
                Err(e) => Err(e),
                Ok(loan) => if owes_elsewhere(loans, reserve.index) {
                    Err(ErrorCode::AnotherLoanOutstanding)
                } else {
                    match reserve.borrow_result(
                        current_slot,
                        loan.requested_tokens,
                        loan.new_notes,
                        loan.fees,
                        loan.protocol_fees,
                    ) {
                        Err(e) => Err(e),
                        Ok(()) => if !exponent_ok(reserve.exponent as int) {
                            Err(ErrorCode::Overflow)
                        } else {
                            match add_result(
                                loans,
                                loan_account,
                                raw_of_decimal(loan.new_notes as nat, reserve.exponent as int),
                            ) {
                                Err(e) => Err(e),
                                Ok(()) => match revalued_health(
                                    loans_after(loans, reserve, loan_account, loan.new_notes),
                                    collateral_count,
                                    price,
                                    market,
                                    current_slot,
                                ) {
                                    Err(e) => Err(e),
                                    Ok(healthy) => if healthy {
                                        Ok(loan)
                                    } else {
                                        Err(ErrorCode::InsufficientCollateral)
                                    },
                                },
                            }
                        },
                    }
                },
            },
        },
    }
}

/// The amounts of a loan of `amount`.
fn compute_loan(info: &CachedReserveInfo, reserve: &Reserve, amount: Amount) -> (r: Result<
    BorrowOutcome,
    ErrorCode,
>)
    ensures
        r == loan_amounts(*info, reserve.config, amount),
{
    let requested_tokens = match amount.checked_as_tokens(info, Rounding::Down) {
        Err(e) => {
            return Err(e);
        },
        Ok(v) => v,
    };
    let fees = match reserve.checked_borrow_fee(requested_tokens) {
        Err(e) => {
            return Err(e);
        },
        Ok(v) => v,
    };
    let protocol_fees = match reserve.checked_protocol_fee(requested_tokens) {
        Err(e) => {
            return Err(e);
        },
        Ok(v) => v,
    };
    let total_token_debt = match requested_tokens.checked_add(fees) {
        None => {
            return Err(ErrorCode::Overflow);
        },
        Some(v) => match v.checked_add(protocol_fees) {
            None => {
                return Err(ErrorCode::Overflow);
            },
            Some(w) => w,
        },
    };
    let new_notes = match info.checked_loan_notes_from_tokens(total_token_debt, Rounding::Up) {
        Err(e) => {
            return Err(e);
        },
        Ok(v) => v,
    };
    Ok(BorrowOutcome { requested_tokens, new_notes, fees, protocol_fees })
}

/// Borrows `amount` from the reserve on the loan account of the
/// obligation, at the price that the oracle gave for the collateral. On
/// an error nothing changes.
pub fn handler(
    market_reserves: &MarketReserves,
    market_oracle: &mut MarketOracle,
    reserve: &mut Reserve,
    obligation: &mut Obligation,
    loan_account: &StoredPubkey,
    nft_price_mantissa: i128,
    nft_price_scale: u32,
    current_slot: u64,
    amount: Amount,
) -> (r: Result<BorrowOutcome, ErrorCode>)
    requires
        old(obligation).wf(),
    ensures
        final(obligation).wf(),
        r == borrow_result(
            market_reserves@,
            *old(reserve),
            old(obligation).loans_spec(),
            occupied(old(obligation).collateral_spec()),
            loan_account@,
            nft_price_mantissa,
            nft_price_scale,
            current_slot,
            amount,
        ),
        r is Err ==> *final(reserve) == *old(reserve),
        r is Err ==> *final(market_oracle) == *old(market_oracle),
        r is Err ==> old(obligation).same_as(final(obligation)),
        r is Ok ==> Ok::<nat, ErrorCode>(final(market_oracle).price@) == oracle_price_spec(
            nft_price_mantissa,
            nft_price_scale,
        ),
        r is Ok ==> old(reserve).same_but_state_value(final(reserve)),
        r is Ok ==> Reserve::borrowed(
            old(reserve).state_spec(),
            final(reserve).state_spec(),
            r->Ok_0.requested_tokens,
            r->Ok_0.new_notes,
            r->Ok_0.fees,
            r->Ok_0.protocol_fees,
        ),
        r is Ok ==> old(obligation).same_parties(final(obligation)),
        r is Ok ==> final(obligation).collateral_spec() == old(obligation).collateral_spec(),
        r is Ok ==> final(obligation).loans_spec() == loans_after(
            old(obligation).loans_spec(),
            *old(reserve),
            loan_account@,
            r->Ok_0.new_notes,
        ),
        r is Ok ==> final(obligation).valued_at(
            market_reserves@,
            current_slot,
            final(market_oracle).price@,
        ),
{
    let price = match oracle_price(nft_price_mantissa, nft_price_scale) {
        Err(e) => {
            return Err(e);
        },
        Ok(p) => p,
    };
    let reserve_info = match market_reserves.try_get_cached(reserve.index, current_slot) {
        Err(e) => {
            return Err(e);
        },
        Ok(info) => info,
    };
    let loan = match compute_loan(reserve_info, reserve, amount) {
        Err(e) => {
            return Err(e);
        },
        Ok(l) => l,
    };
    match obligation.can_borrow_from_reserve(reserve.index) {
        Err(e) => {
            return Err(e);
        },
        Ok(()) => {},
    }
    let mut next_reserve = *reserve;
    match next_reserve.try_borrow(
        current_slot,
        loan.requested_tokens,
        loan.new_notes,
        loan.fees,
        loan.protocol_fees,
    ) {
        Err(e) => {
            return Err(e);
        },
        Ok(()) => {},
    }
    let notes = match reserve.checked_amount(loan.new_notes) {
        None => {
            return Err(ErrorCode::Overflow);
        },
        Some(n) => n,
    };
    let mut next_obligation = obligation.duplicate();
    match next_obligation.borrow(loan_account, notes) {
        Err(e) => {
            return Err(e);
        },
        Ok(()) => {},
    }
    let oracle = MarketOracle { price };
    match next_obligation.revalue(market_reserves, current_slot, &oracle) {
        Err(e) => {
            return Err(e);
        },
        Ok(healthy) => {
            if !healthy {
                return Err(ErrorCode::InsufficientCollateral);
            }
        },
    }
    *reserve = next_reserve;
    *obligation = next_obligation;
    *market_oracle = oracle;
    Ok(loan)
}

} // verus!
