//! Executing a bid on an unhealthy obligation: the bidder's escrow pays
//! off the debt and the bidder gets the collateral.

use vstd::prelude::*;
use crate::bid::Bid;
use crate::common::Rounding;
use crate::errors::ErrorCode;
use crate::keys::StoredPubkey;
use crate::market::{
    snapshot_at, tokens_of_notes, tokens_of_notes_defined, CachedReserveInfo, MarketOracle,
    MarketReserves, ReserveInfo,
};
use crate::number::{exponent_ok, lemma_pow10_values, max_raw, one, raw_of_decimal, Number};
use crate::obligation::{holds_account, holds_key, key_index, with_less, Obligation, Position};
use crate::slots::occupied;
use crate::valuation::revalued_health;
use crate::reserve::Reserve;

verus! {

/// What executing a bid moves.
#[derive(Clone, Copy, Debug, PartialEq, Eq, Structural)]
pub struct LiquidationOutcome {
    /// The loan notes to burn.
    pub payoff_notes: u64,
    /// The tokens that go from the escrow to the reserve's vault.
    pub payoff_tokens: u64,
    /// The tokens that go from the escrow to the protocol.
    pub liquidation_fee_tokens: u64,
    /// The tokens that go from the escrow to the receiver of what is
    /// left over.
    pub leftovers_after_fees: u64,
}

/// The notes and the tokens of a repayment.
#[derive(Clone, Copy, Debug, PartialEq, Eq, Structural)]
pub struct Payoff {
    pub notes: u64,
    pub tokens: u64,
}

/// The smaller of two integers.
pub open spec fn smaller(a: nat, b: nat) -> nat {
    if a <= b {
        a
    } else {
        b
    }
}

/// The share `bps`, in hundredths of a percent, of `tokens`, rounded
/// down.
pub open spec fn premium_of(tokens: u64, bps: u16) -> nat {
    (tokens as nat) * (bps as nat) / 10000
}

/// The tokens that pay off `notes` loan notes: what the notes are
/// worth, rounded up, but no more than the whole tokens that the
/// reserve is owed. `Overflow` where the notes' worth cannot be
/// computed or the debt does not fit in 64 bits, `StaleData` where the
/// reserve's state is not fresh.
pub open spec fn payoff_tokens_spec(
    info: CachedReserveInfo,
    reserve: Reserve,
    current_slot: u64,
    notes: u64,
) -> Result<u64, ErrorCode> {
    if !tokens_of_notes_defined(notes as nat, info.loan_note_exchange_rate@, Rounding::Up) {
        Err(ErrorCode::Overflow)
    } else if !reserve.state.is_fresh(current_slot) {
        Err(ErrorCode::StaleData)
    } else if reserve.state_spec().outstanding_debt@ / one() > u64::MAX {
        Err(ErrorCode::Overflow)
    } else {
        Ok(
            smaller(
                tokens_of_notes(notes as nat, info.loan_note_exchange_rate@, Rounding::Up),
                reserve.state_spec().outstanding_debt@ / one(),
            ) as u64,
        )
    }
}

/// How a bid of `bid_limit` tokens is split once `payoff_tokens` of
/// them pay off the debt: the share `premium` of the rest is the
/// protocol's fee, and what is then left goes to the receiver of the
/// leftovers. `Overflow` where the bid does not cover the payoff or the
/// fee exceeds the rest.
pub open spec fn split_spec(bid_limit: u64, payoff: Payoff, premium: u16) -> Result<
    LiquidationOutcome,
    ErrorCode,
> {
    if bid_limit < payoff.tokens {
        Err(ErrorCode::Overflow)
    } else {
        let leftovers = (bid_limit - payoff.tokens) as u64;
        let fee = premium_of(leftovers, premium);
        if fee > leftovers {
            Err(ErrorCode::Overflow)
        } else {
            Ok(
                LiquidationOutcome {
                    payoff_notes: payoff.notes,
                    payoff_tokens: payoff.tokens,
                    liquidation_fee_tokens: fee as u64,
                    leftovers_after_fees: (leftovers - fee) as u64,
                },
            )
        }
    }
}

/// The loan slots once `notes` loan notes of the reserve were repaid on
/// the account.
pub open spec fn loans_after_repay(
    loans: Seq<Option<Position>>,
    reserve: Reserve,
    loan_account: Seq<u8>,
    notes: u64,
) -> Seq<Option<Position>> {
    with_less(loans, loan_account, raw_of_decimal(notes as nat, reserve.exponent as int))
}

/// What recording the repayment of `payoff` on the reserve and on the
/// loan account gives.
pub open spec fn record_result(
    reserve: Reserve,
    loans: Seq<Option<Position>>,
    loan_account: Seq<u8>,
    current_slot: u64,
    payoff: Payoff,
) -> Result<(), ErrorCode> {
    match reserve.repay_result(current_slot, payoff.tokens) {
        Err(e) => Err(e),
        Ok(()) => if !exponent_ok(reserve.exponent as int) {
            Err(ErrorCode::Overflow)
        } else if !holds_account(loans, loan_account) {
            Err(ErrorCode::UnregisteredPosition)
        } else {
            Ok(())
        },
    }
}

/// What executing the bid gives. In this order it fails with
/// `BidMintMismatch` where the bid is in another token than the
/// reserve's, with what keeps the obligation from being valued,
/// `ObligationHealthy` where the collateral covers the loans,
/// `InvalidParameter` where there are no notes to pay off, `StaleData`
/// where the reserve has no fresh snapshot, with what keeps the payoff
/// from being computed, `LiquidationLowCollateral` where the escrow
/// holds less than the payoff and the caller has no authority to
/// override that, with what keeps the bid from being split,
/// `UnregisteredCollateral` where the item is not collateral of the
/// obligation, with what keeps the repayment from being recorded or the
/// obligation from being valued again, and `ObligationUnhealthy` where
/// the loans that are left are not covered.
pub open spec fn execute_result(
    market: Seq<ReserveInfo>,
    price: nat,
    reserve: Reserve,
    loans: Seq<Option<Position>>,
    collateral: Seq<Option<StoredPubkey>>,
    bid: Bid,
    nft_mint: Seq<u8>,
    loan_account: Seq<u8>,
    escrow_balance: u64,
    requested_notes: u64,
    loan_notes_balance: u64,
    override_authority: bool,
    current_slot: u64,
) -> Result<LiquidationOutcome, ErrorCode> {
    if reserve.token_mint@ != bid.bid_mint@ {
        Err(ErrorCode::BidMintMismatch)
    } else {
        match revalued_health(loans, occupied(collateral), price, market, current_slot) {
            Err(e) => Err(e),
            Ok(healthy) => if healthy {
                Err(ErrorCode::ObligationHealthy)
            } else if smaller(requested_notes as nat, loan_notes_balance as nat) == 0 {
                Err(ErrorCode::InvalidParameter)
            } else {
                let notes = smaller(requested_notes as nat, loan_notes_balance as nat) as u64;
                match snapshot_at(market, reserve.index as int, current_slot) {
                    None => Err(ErrorCode::StaleData),
                    Some(info) => match payoff_tokens_spec(info, reserve, current_slot, notes) {
                        Err(e) => Err(e),
                        Ok(tokens) => if escrow_balance < tokens && !override_authority {
                            Err(ErrorCode::LiquidationLowCollateral)
                        } else {
                            match split_spec(
                                bid.bid_limit,
                                Payoff { notes, tokens },
                                reserve.config.liquidation_premium,
                            ) {
                                Err(e) => Err(e),
                                Ok(outcome) => if !holds_key(collateral, nft_mint) {
                                    Err(ErrorCode::UnregisteredCollateral)
                                } else {
                                    match record_result(
                                        reserve,
                                        loans,
                                        loan_account,
                                        current_slot,
                                        Payoff { notes, tokens },
                                    ) {
                                        Err(e) => Err(e),
                                        Ok(()) => match revalued_health(
                                            loans_after_repay(loans, reserve, loan_account, notes),
                                            (occupied(collateral) - 1) as nat,
                                            price,
                                            market,
                                            current_slot,
                                        ) {
                                            Err(e) => Err(e),
                                            Ok(covered) => if covered {
                                                Ok(outcome)
                                            } else {
                                                Err(ErrorCode::ObligationUnhealthy)
                                            },
                                        },
                                    }
                                },
                            }
                        },
                    },
                }
            },
        }
    }
}

/// The tokens that pay off `notes` loan notes.
pub fn payoff_tokens(
    reserve_info: &CachedReserveInfo,
    reserve: &Reserve,
    current_slot: u64,
    notes: u64,
) -> (r: Result<u64, ErrorCode>)
    ensures
        r == payoff_tokens_spec(*reserve_info, *reserve, current_slot, notes),
{
    let worth = match reserve_info.checked_loan_notes_to_tokens(notes, Rounding::Up) {
        Err(e) => {
            return Err(e);
        },
        Ok(v) => v,
    };
    let debt = match reserve.state.try_get(current_slot) {
        Err(e) => {
            return Err(e);
        },
        Ok(state) => state.outstanding_debt,
    };
    proof {
        lemma_pow10_values();
    }
    match debt.checked_as_u64(0) {
        None => Err(ErrorCode::Overflow),
        Some(owed) => Ok(
            if worth <= owed {
                worth
            } else {
                owed
            },
        ),
    }
}

/// Splits a bid of `bid_limit` tokens into the payoff, the protocol's
/// fee and what is left over. The three add up to the bid.
pub fn split_bid(bid_limit: u64, payoff: Payoff, premium: u16) -> (r: Result<
    LiquidationOutcome,
    ErrorCode,
>)
    ensures
        r == split_spec(bid_limit, payoff, premium),
        r is Ok ==> r->Ok_0.payoff_tokens + r->Ok_0.liquidation_fee_tokens
            + r->Ok_0.leftovers_after_fees == bid_limit,
{
    if bid_limit < payoff.tokens {
        return Err(ErrorCode::Overflow);
    }
    let leftovers = bid_limit - payoff.tokens;
    let liquidation_fee = Number::from_bps(premium);
    proof {
        lemma_pow10_values();
        assert(liquidation_fee@ * leftovers <= max_raw()) by (nonlinear_arith)
            requires
                liquidation_fee@ == premium * 100_000_000_000,
                premium <= 65535,
                leftovers <= u64::MAX,
                max_raw() == 0xffff_ffff_ffff_ffff_ffff_ffff_ffff_ffff_ffff_ffff_ffff_ffffnat,
        ;
        assert(liquidation_fee@ * leftovers == ((leftovers as nat) * (premium as nat))
            * 100_000_000_000) by (nonlinear_arith)
            requires
                liquidation_fee@ == premium * 100_000_000_000,
        ;
        lemma_share_rounding((leftovers as nat) * (premium as nat));
    }
    let liquidation_fee_tokens = match liquidation_fee.mul_int(leftovers).checked_as_u64(0) {
        None => {
            proof {
                assert((leftovers as nat) * (premium as nat) >= 0);
                assert(premium_of(leftovers, premium) > leftovers);
            }
            return Err(ErrorCode::Overflow);
        },
        Some(fee) => fee,
    };
    if liquidation_fee_tokens > leftovers {
        return Err(ErrorCode::Overflow);
    }
    Ok(
        LiquidationOutcome {
            payoff_notes: payoff.notes,
            payoff_tokens: payoff.tokens,
            liquidation_fee_tokens,
            leftovers_after_fees: leftovers - liquidation_fee_tokens,
        },
    )
}

/// Rounding a product with a rate in hundredths of a percent down
/// agrees with dividing by ten thousand.
proof fn lemma_share_rounding(k: nat)
    ensures
        (k * 100_000_000_000) / one() == k / 10000,
{
}

/// Executes the bid on the obligation. On an error nothing changes.
pub fn execute_liquidation(
    market_reserves: &MarketReserves,
    market_oracle: &MarketOracle,
    reserve: &mut Reserve,
    obligation: &mut Obligation,
    bid: &Bid,
    nft_mint: &StoredPubkey,
    loan_account: &StoredPubkey,
    escrow_balance: u64,
    requested_notes: u64,
    loan_notes_balance: u64,
    override_authority: bool,
    current_slot: u64,
) -> (r: Result<LiquidationOutcome, ErrorCode>)
    requires
        old(obligation).wf(),
    ensures
        final(obligation).wf(),
        r == execute_result(
            market_reserves@,
            market_oracle.price@,
            *old(reserve),
            old(obligation).loans_spec(),
            old(obligation).collateral_spec(),
            *bid,
            nft_mint@,
            loan_account@,
            escrow_balance,
            requested_notes,
            loan_notes_balance,
            override_authority,
            current_slot,
        ),
        r is Err ==> *final(reserve) == *old(reserve) && old(obligation).same_as(
            final(obligation),
        ),
        r is Ok ==> r->Ok_0.payoff_tokens + r->Ok_0.liquidation_fee_tokens
            + r->Ok_0.leftovers_after_fees == bid.bid_limit,
        r is Ok ==> old(reserve).same_but_state_value(final(reserve)),
        r is Ok ==> Reserve::repaid(
            old(reserve).state_spec(),
            final(reserve).state_spec(),
            r->Ok_0.payoff_tokens,
            r->Ok_0.payoff_notes,
        ),
        r is Ok ==> old(obligation).same_parties(final(obligation)),
        r is Ok ==> final(obligation).collateral_spec() == old(obligation).collateral_spec().update(
            key_index(old(obligation).collateral_spec(), nft_mint@),
            None,
        ),
        r is Ok ==> final(obligation).loans_spec() == loans_after_repay(
            old(obligation).loans_spec(),
            *old(reserve),
            loan_account@,
            r->Ok_0.payoff_notes,
        ),
        r is Ok ==> final(obligation).valued_at(
            market_reserves@,
            current_slot,
            market_oracle.price@,
        ),
        r is Ok ==> final(obligation).healthy_at(
            market_reserves@,
            current_slot,
            market_oracle.price@,
        ),
{
    if !reserve.token_mint.equals(&bid.bid_mint) {
        return Err(ErrorCode::BidMintMismatch);
    }
    let mut next_obligation = obligation.duplicate();
    match next_obligation.revalue(market_reserves, current_slot, market_oracle) {
        Err(e) => {
            return Err(e);
        },
        Ok(healthy) => {
            if healthy {
                return Err(ErrorCode::ObligationHealthy);
            }
        },
    }
    let payoff_notes = if requested_notes <= loan_notes_balance {
        requested_notes
    } else {
        loan_notes_balance
    };
    if payoff_notes == 0 {
        return Err(ErrorCode::InvalidParameter);
    }
    let reserve_info = match market_reserves.try_get_cached(reserve.index, current_slot) {
        Err(e) => {
            return Err(e);
        },
        Ok(info) => info,
    };
    let tokens = match payoff_tokens(reserve_info, reserve, current_slot, payoff_notes) {
        Err(e) => {
            return Err(e);
        },
        Ok(t) => t,
    };
    if escrow_balance < tokens && !override_authority {
        return Err(ErrorCode::LiquidationLowCollateral);
    }
    let payoff = Payoff { notes: payoff_notes, tokens };
    let outcome = match split_bid(bid.bid_limit, payoff, reserve.config.liquidation_premium) {
        Err(e) => {
            return Err(e);
        },
        Ok(o) => o,
    };
    match next_obligation.unregister_nft(*nft_mint) {
        Err(e) => {
            return Err(e);
        },
        Ok(()) => {},
    }
    let mut next_reserve = *reserve;
    match next_reserve.try_repay(current_slot, payoff.tokens, payoff.notes) {
        Err(e) => {
            return Err(e);
        },
        Ok(()) => {},
    }
    let notes = match reserve.checked_amount(payoff.notes) {
        None => {
            return Err(ErrorCode::Overflow);
        },
        Some(n) => n,
    };
    match next_obligation.repay(loan_account, notes) {
        Err(e) => {
            return Err(e);
        },
        Ok(()) => {},
    }
    match next_obligation.revalue(market_reserves, current_slot, market_oracle) {
        Err(e) => {
            return Err(e);
        },
        Ok(healthy) => {
            if !healthy {
                return Err(ErrorCode::ObligationUnhealthy);
            }
        },
    }
    *reserve = next_reserve;
    *obligation = next_obligation;
    Ok(outcome)
}

/// Executes the bid on the obligation for all the notes of the loan
/// account. On an error nothing changes.
pub fn handler(
    market_reserves: &MarketReserves,
    market_oracle: &MarketOracle,
    reserve: &mut Reserve,
    obligation: &mut Obligation,
    bid: &Bid,
    nft_mint: &StoredPubkey,
    loan_account: &StoredPubkey,
    escrow_balance: u64,
    loan_notes_balance: u64,
    override_authority: bool,
    current_slot: u64,
) -> (r: Result<LiquidationOutcome, ErrorCode>)
    requires
        old(obligation).wf(),
    ensures
        final(obligation).wf(),
        r == execute_result(
            market_reserves@,
            market_oracle.price@,
            *old(reserve),
            old(obligation).loans_spec(),
            old(obligation).collateral_spec(),
            *bid,
            nft_mint@,
            loan_account@,
            escrow_balance,
            loan_notes_balance,
            loan_notes_balance,
            override_authority,
            current_slot,
        ),
        r is Err ==> *final(reserve) == *old(reserve) && old(obligation).same_as(
            final(obligation),
        ),
        r is Ok ==> r->Ok_0.payoff_notes == loan_notes_balance && r->Ok_0.payoff_tokens
            + r->Ok_0.liquidation_fee_tokens + r->Ok_0.leftovers_after_fees == bid.bid_limit
            && final(obligation).healthy_at(market_reserves@, current_slot, market_oracle.price@),
{
    execute_liquidation(
        market_reserves,
        market_oracle,
        reserve,
        obligation,
        bid,
        nft_mint,
        loan_account,
        escrow_balance,
        loan_notes_balance,
        loan_notes_balance,
        override_authority,
        current_slot,
    )
}

} // verus!
