//! Refreshing a reserve: interest accrues, and once it is up to date
//! the market's snapshot of the reserve is made anew.

use vstd::prelude::*;
use crate::cache::Cache;
use crate::errors::ErrorCode;
use crate::market::{
    oracle_price, oracle_price_spec, CachedReserveInfo, MarketOracle, MarketReserves, ReserveInfo,
};
use crate::number::{one, Number};
use crate::interest::{accrued, bps_raw};
use crate::reserve::{
    after_collection, after_protocol_collection, deposit_rate_spec, exchange_rate_of, Reserve,
    ReserveConfig, ReserveState,
};
use crate::utils::JobCompletion;

verus! {

/// What a refresh did and what it asks to be minted.
#[derive(Clone, Copy, Debug, PartialEq, Eq, Structural)]
pub struct RefreshOutcome {
    /// Whether the reserve is up to date now.
    pub completion: JobCompletion,
    /// The deposit notes to mint for the fees collected.
    pub notes_to_mint: u64,
    /// The deposit notes to mint for the protocol's fees collected.
    pub notes_to_mint_protocol: u64,
}

/// The two exchange rates of a reserve in the state `state`, with the
/// tokens in its vault and the notes in existence as they are recorded
/// in `counted`; `Overflow` where one cannot be computed.
pub open spec fn rates_spec(state: ReserveState, counted: ReserveState) -> Result<
    (nat, nat),
    ErrorCode,
> {
    match deposit_rate_spec(state, counted.total_deposits, counted.total_deposit_notes) {
        None => Err(ErrorCode::Overflow),
        Some(deposit_rate) => match exchange_rate_of(
            state.outstanding_debt@,
            counted.total_loan_notes,
        ) {
            None => Err(ErrorCode::Overflow),
            Some(loan_rate) => Ok((deposit_rate, loan_rate)),
        },
    }
}

/// The state and the notes to mint once the fees that have reached the
/// threshold were collected at the raw exchange rate `rate`: first the
/// reserve's own, then the protocol's.
pub open spec fn collected_spec(state: ReserveState, threshold: u64, rate: nat) -> Result<
    (ReserveState, u64, u64),
    ErrorCode,
> {
    match Reserve::fee_collection(
        threshold,
        state.uncollected_fees@,
        state.total_deposit_notes,
        rate,
    ) {
        Err(e) => Err(e),
        Ok(notes) => {
            let next = after_collection(state, threshold, notes);
            match Reserve::fee_collection(
                threshold,
                next.uncollected_protocol_fees@,
                next.total_deposit_notes,
                rate,
            ) {
                Err(e) => Err(e),
                Ok(protocol_notes) => Ok(
                    (after_protocol_collection(next, threshold, protocol_notes), notes, protocol_notes),
                ),
            }
        },
    }
}

/// What refreshing the reserve gives: the reserve's new state and the
/// outcome. In this order it fails with `InvalidOraclePrice` for a
/// price that is none, `InvalidParameter` where the market has no such
/// reserve, with what keeps interest from accruing and, where the
/// reserve came up to date, with what keeps the exchange rates or the
/// fees' notes from being computed.
pub open spec fn refresh_result(
    reserves: nat,
    reserve: Reserve,
    nft_price_mantissa: i128,
    nft_price_scale: u32,
    price_mantissa: i128,
    price_scale: u32,
    timestamp: i64,
) -> Result<(ReserveState, RefreshOutcome), ErrorCode> {
    if oracle_price_spec(nft_price_mantissa, nft_price_scale) is Err || oracle_price_spec(
        price_mantissa,
        price_scale,
    ) is Err {
        Err(ErrorCode::InvalidOraclePrice)
    } else if reserve.index >= reserves {
        Err(ErrorCode::InvalidParameter)
    } else {
        match accrued(
            reserve.config,
            reserve.state_spec(),
            reserve.state_spec().total_deposits,
            timestamp,
        ) {
            Err(e) => Err(e),
            Ok((state, completion)) => if completion == JobCompletion::Partial {
                Ok(
                    (
                        state,
                        RefreshOutcome {
                            completion,
                            notes_to_mint: 0,
                            notes_to_mint_protocol: 0,
                        },
                    ),
                )
            } else {
                match rates_spec(state, reserve.state_spec()) {
                    Err(e) => Err(e),
                    Ok((deposit_rate, loan_rate)) => match collected_spec(
                        state,
                        reserve.config.manage_fee_collection_threshold,
                        deposit_rate,
                    ) {
                        Err(e) => Err(e),
                        Ok((last, notes, protocol_notes)) => Ok(
                            (
                                last,
                                RefreshOutcome {
                                    completion,
                                    notes_to_mint: notes,
                                    notes_to_mint_protocol: protocol_notes,
                                },
                            ),
                        ),
                    },
                }
            },
        }
    }
}

/// Whether `info` is the snapshot that a refresh makes of a reserve
/// with the rules `config` at the raw price `price` and the exchange
/// rates `rates`.
pub open spec fn is_snapshot(
    info: CachedReserveInfo,
    price: nat,
    rates: (nat, nat),
    config: ReserveConfig,
) -> bool {
    &&& info.price@ == price
    &&& info.deposit_note_exchange_rate@ == rates.0
    &&& info.loan_note_exchange_rate@ == rates.1
    &&& info.min_collateral_ratio@ == bps_raw(config.min_collateral_ratio)
    &&& info.liquidation_bonus == config.liquidation_premium
}

/// Whether `after` is `before` but for the snapshot of the reserve at
/// `index`.
pub open spec fn others_kept(
    before: Seq<ReserveInfo>,
    after: Seq<ReserveInfo>,
    index: int,
) -> bool {
    &&& after.len() == before.len()
    &&& after[index].reserve == before[index].reserve
    &&& forall|j: int| 0 <= j < before.len() && j != index ==> after[j] == before[j]
}

/// The market's snapshot of the reserve.
pub open spec fn snapshot_of(market: Seq<ReserveInfo>, reserve: Reserve) -> Cache<
    CachedReserveInfo,
> {
    market[reserve.index as int].cache
}

/// Whether the refresh succeeded and left the reserve behind.
pub open spec fn is_partial(r: Result<RefreshOutcome, ErrorCode>) -> bool {
    r matches Ok(outcome) && outcome.completion == JobCompletion::Partial
}

/// Whether the refresh succeeded and brought the reserve up to date.
pub open spec fn is_full(r: Result<RefreshOutcome, ErrorCode>) -> bool {
    r matches Ok(outcome) && outcome.completion == JobCompletion::Full
}

/// Refreshes the reserve at `timestamp` and `current_slot` with the
/// prices that the oracles gave for the collateral and for the token.
/// While the reserve is not up to date, the market's snapshot of it is
/// invalid, whatever slot is asked for. On an error nothing changes.
pub fn handler(
    market_reserves: &mut MarketReserves,
    market_oracle: &mut MarketOracle,
    reserve: &mut Reserve,
    nft_price_mantissa: i128,
    nft_price_scale: u32,
    price_mantissa: i128,
    price_scale: u32,
    timestamp: i64,
    current_slot: u64,
) -> (r: Result<RefreshOutcome, ErrorCode>)
    requires
        old(market_reserves).wf(),
    ensures
        final(market_reserves).wf(),
        match refresh_result(
            old(market_reserves)@.len(),
            *old(reserve),
            nft_price_mantissa,
            nft_price_scale,
            price_mantissa,
            price_scale,
            timestamp,
        ) {
            Err(e) => r == Err::<RefreshOutcome, ErrorCode>(e),
            Ok((state, outcome)) => r == Ok::<RefreshOutcome, ErrorCode>(outcome)
                && final(reserve).state_spec() == state,
        },
        r is Err ==> *final(reserve) == *old(reserve),
        r is Err ==> *final(market_oracle) == *old(market_oracle),
        r is Err ==> final(market_reserves)@ == old(market_reserves)@,
        r is Ok ==> old(reserve).same_but_state(final(reserve)),
        r is Ok ==> Ok::<nat, ErrorCode>(final(market_oracle).price@) == oracle_price_spec(
            nft_price_mantissa,
            nft_price_scale,
        ),
        r is Ok ==> others_kept(
            old(market_reserves)@,
            final(market_reserves)@,
            old(reserve).index as int,
        ),
        is_partial(r) ==> snapshot_of(final(market_reserves)@, *old(reserve)).stale_value()
            == snapshot_of(old(market_reserves)@, *old(reserve)).stale_value(),
        is_partial(r) ==> forall|slot: u64|
            !(#[trigger] snapshot_of(final(market_reserves)@, *old(reserve)).is_fresh(slot)),
        is_partial(r) ==> old(reserve).same_but_state_value(final(reserve)),
        is_full(r) ==> final(reserve).state.is_fresh(current_slot),
        is_full(r) ==> snapshot_of(final(market_reserves)@, *old(reserve)).as_of() == current_slot,
        is_full(r) ==> !snapshot_of(final(market_reserves)@, *old(reserve)).is_invalidated(),
        is_full(r) ==> is_snapshot(
            snapshot_of(final(market_reserves)@, *old(reserve)).stale_value(),
            oracle_price_spec(price_mantissa, price_scale)->Ok_0,
            rates_spec(
                accrued(
                    old(reserve).config,
                    old(reserve).state_spec(),
                    old(reserve).state_spec().total_deposits,
                    timestamp,
                )->Ok_0.0,
                old(reserve).state_spec(),
            )->Ok_0,
            old(reserve).config,
        ),
{
    let nft_price = match oracle_price(nft_price_mantissa, nft_price_scale) {
        Err(e) => {
            return Err(e);
        },
        Ok(p) => p,
    };
    let price = match oracle_price(price_mantissa, price_scale) {
        Err(e) => {
            return Err(e);
        },
        Ok(p) => p,
    };
    if (reserve.index as usize) >= market_reserves.len() {
        return Err(ErrorCode::InvalidParameter);
    }
    let vault_amount = reserve.total_deposits();
    let deposit_note_mint_supply = reserve.total_deposit_notes();
    let loan_note_mint_supply = reserve.total_loan_notes();
    let mut next = *reserve;
    let completion = match next.try_accrue_interest(vault_amount, timestamp, current_slot) {
        Err(e) => {
            return Err(e);
        },
        Ok(c) => c,
    };
    let ghost accrued_state = next.state_spec();
    match completion {
        JobCompletion::Partial => {
            let reserve_info = market_reserves.get_mut(reserve.index);
            reserve_info.cache.invalidate();
            *reserve = next;
            *market_oracle = MarketOracle { price: nft_price };
            Ok(RefreshOutcome { completion, notes_to_mint: 0, notes_to_mint_protocol: 0 })
        },
        JobCompletion::Full => {
            let deposit_note_exchange_rate = match next.deposit_note_exchange_rate(
                current_slot,
                vault_amount,
                deposit_note_mint_supply,
            ) {
                Err(e) => {
                    return Err(e);
                },
                Ok(rate) => rate,
            };
            let loan_note_exchange_rate = match next.loan_note_exchange_rate(
                current_slot,
                loan_note_mint_supply,
            ) {
                Err(e) => {
                    return Err(e);
                },
                Ok(rate) => rate,
            };
            let notes_to_mint = match next.collect_accrued_fees(
                current_slot,
                deposit_note_exchange_rate,
            ) {
                Err(e) => {
                    return Err(e);
                },
                Ok(n) => n,
            };
            let notes_to_mint_protocol = match next.collect_accrued_protocol_fees(
                current_slot,
                deposit_note_exchange_rate,
            ) {
                Err(e) => {
                    return Err(e);
                },
                Ok(n) => n,
            };
            let snapshot = CachedReserveInfo {
                price,
                deposit_note_exchange_rate,
                loan_note_exchange_rate,
                min_collateral_ratio: Number::from_bps(reserve.config.min_collateral_ratio),
                liquidation_bonus: reserve.config.liquidation_premium,
            };
            let reserve_info = market_reserves.get_mut(reserve.index);
            reserve_info.cache.set_stale(snapshot);
            reserve_info.cache.refresh_to(current_slot);
            *reserve = next;
            *market_oracle = MarketOracle { price: nft_price };
            proof {
                assert(rates_spec(accrued_state, old(reserve).state_spec()) == Ok::<
                    (nat, nat),
                    ErrorCode,
                >((deposit_note_exchange_rate@, loan_note_exchange_rate@)));
                assert(is_snapshot(
                    snapshot,
                    price@,
                    (deposit_note_exchange_rate@, loan_note_exchange_rate@),
                    old(reserve).config,
                ));
            }
            Ok(RefreshOutcome { completion, notes_to_mint, notes_to_mint_protocol })
        },
    }
}

} // verus!
