//! Setting up a reserve and registering it with its market.

use vstd::prelude::*;
use crate::cache::Cache;
use crate::errors::ErrorCode;
use crate::keys::StoredPubkey;
use crate::market::{MarketReserves, MAX_RESERVES, ReserveIndex};
use crate::reserve::{Reserve, ReserveConfig, ReserveState};

verus! {

/// The accounts of a reserve.
#[derive(Clone, Copy, Debug)]
pub struct ReserveAccounts {
    pub reserve: StoredPubkey,
    pub market: StoredPubkey,
    pub switchboard_price_aggregator: StoredPubkey,
    pub vault: StoredPubkey,
    pub fee_note_vault: StoredPubkey,
    pub protocol_fee_note_vault: StoredPubkey,
    pub token_mint: StoredPubkey,
    pub deposit_note_mint: StoredPubkey,
    pub loan_note_mint: StoredPubkey,
}

/// Whether `reserve` is the new reserve of these accounts at `index`,
/// for a token with `decimals` decimal places.
pub open spec fn is_new_reserve(
    reserve: Reserve,
    accounts: ReserveAccounts,
    decimals: u8,
    config: ReserveConfig,
    index: ReserveIndex,
) -> bool {
    &&& reserve.version == 0
    &&& reserve.index == index
    &&& reserve.exponent == -(decimals as int)
    &&& reserve.config == config
    &&& reserve.market == accounts.market
    &&& reserve.switchboard_price_aggregator == accounts.switchboard_price_aggregator
    &&& reserve.vault == accounts.vault
    &&& reserve.fee_note_vault == accounts.fee_note_vault
    &&& reserve.protocol_fee_note_vault == accounts.protocol_fee_note_vault
    &&& reserve.token_mint == accounts.token_mint
    &&& reserve.deposit_note_mint == accounts.deposit_note_mint
    &&& reserve.loan_note_mint == accounts.loan_note_mint
}

/// Sets up the reserve of the accounts, with nothing held or owed as of
/// `timestamp` and `current_slot`, and registers it with the market
/// under the next free index. Where the market has no room it fails
/// with `NoFreeReserves` and the market stays as it was.
pub fn register_with_market(
    market_reserves: &mut MarketReserves,
    accounts: &ReserveAccounts,
    decimals: u8,
    config: ReserveConfig,
    timestamp: i64,
    current_slot: u64,
) -> (r: Result<Reserve, ErrorCode>)
    requires
        old(market_reserves).wf(),
    ensures
        final(market_reserves).wf(),
        old(market_reserves)@.len() == MAX_RESERVES ==> r == Err::<Reserve, ErrorCode>(
            ErrorCode::NoFreeReserves,
        ) && final(market_reserves)@ == old(market_reserves)@,
        old(market_reserves)@.len() < MAX_RESERVES ==> r is Ok,
        old(market_reserves)@.len() < MAX_RESERVES ==> is_new_reserve(
            r->Ok_0,
            *accounts,
            decimals,
            config,
            old(market_reserves)@.len() as ReserveIndex,
        ),
        old(market_reserves)@.len() < MAX_RESERVES ==> r->Ok_0.state.is_fresh(current_slot),
        old(market_reserves)@.len() < MAX_RESERVES ==> r->Ok_0.state.as_of() == current_slot,
        old(market_reserves)@.len() < MAX_RESERVES ==>
            r->Ok_0.state_spec().accrued_until == timestamp,
        old(market_reserves)@.len() < MAX_RESERVES ==> r->Ok_0.state_spec().outstanding_debt@ == 0,
        old(market_reserves)@.len() < MAX_RESERVES ==> r->Ok_0.state_spec().uncollected_fees@ == 0,
        old(market_reserves)@.len() < MAX_RESERVES ==>
            r->Ok_0.state_spec().uncollected_protocol_fees@ == 0,
        old(market_reserves)@.len() < MAX_RESERVES ==> r->Ok_0.state_spec().total_deposits == 0,
        old(market_reserves)@.len() < MAX_RESERVES ==>
            r->Ok_0.state_spec().total_deposit_notes == 0,
        old(market_reserves)@.len() < MAX_RESERVES ==> r->Ok_0.state_spec().total_loan_notes == 0,
        old(market_reserves)@.len() < MAX_RESERVES ==>
            final(market_reserves)@.len() == old(market_reserves)@.len() + 1,
        old(market_reserves)@.len() < MAX_RESERVES ==> final(market_reserves)@.drop_last()
            == old(market_reserves)@,
        old(market_reserves)@.len() < MAX_RESERVES ==>
            final(market_reserves)@.last().reserve == accounts.reserve,
        old(market_reserves)@.len() < MAX_RESERVES ==>
            final(market_reserves)@.last().cache.is_fresh(0),
{
    let index = match market_reserves.register(&accounts.reserve) {
        Err(e) => {
            return Err(e);
        },
        Ok(i) => i,
    };
    let mut reserve = Reserve {
        version: 0,
        index,
        exponent: -(decimals as i32),
        market: accounts.market,
        switchboard_price_aggregator: accounts.switchboard_price_aggregator,
        token_mint: accounts.token_mint,
        deposit_note_mint: accounts.deposit_note_mint,
        loan_note_mint: accounts.loan_note_mint,
        vault: accounts.vault,
        fee_note_vault: accounts.fee_note_vault,
        protocol_fee_note_vault: accounts.protocol_fee_note_vault,
        config,
        state: Cache::new(ReserveState::new(timestamp), current_slot),
    };
    reserve.init(timestamp, current_slot);
    Ok(reserve)
}

/// Sets up a reserve and registers it with its market.
pub fn handler(
    market_reserves: &mut MarketReserves,
    accounts: &ReserveAccounts,
    decimals: u8,
    config: ReserveConfig,
    timestamp: i64,
    current_slot: u64,
) -> (r: Result<Reserve, ErrorCode>)
    requires
        old(market_reserves).wf(),
    ensures
        final(market_reserves).wf(),
        old(market_reserves)@.len() == MAX_RESERVES ==> r == Err::<Reserve, ErrorCode>(
            ErrorCode::NoFreeReserves,
        ) && final(market_reserves)@ == old(market_reserves)@,
        old(market_reserves)@.len() < MAX_RESERVES ==> r is Ok,
        old(market_reserves)@.len() < MAX_RESERVES ==> is_new_reserve(
            r->Ok_0,
            *accounts,
            decimals,
            config,
            old(market_reserves)@.len() as ReserveIndex,
        ),
        old(market_reserves)@.len() < MAX_RESERVES ==> r->Ok_0.state.is_fresh(current_slot),
        old(market_reserves)@.len() < MAX_RESERVES ==>
            final(market_reserves)@.len() == old(market_reserves)@.len() + 1,
        old(market_reserves)@.len() < MAX_RESERVES ==> final(market_reserves)@.drop_last()
            == old(market_reserves)@,
        old(market_reserves)@.len() < MAX_RESERVES ==>
            final(market_reserves)@.last().reserve == accounts.reserve,
{
    register_with_market(market_reserves, accounts, decimals, config, timestamp, current_slot)
}

} // verus!
