//! What the loans and the collateral of an obligation are worth, and
//! whether the one covers the other.

use vstd::prelude::*;
use crate::cache::Cache;
use crate::errors::ErrorCode;
use crate::market::{snapshot_at, ReserveInfo};
use crate::number::{max_raw, one, Number};
use crate::obligation::{with_amount, CalculationCacheInner, Position};

verus! {

/// The raw market value of `amount` notes at the exchange rate `rate`
/// and the token price `price`: each product is rounded down to fifteen
/// fractional digits.
pub open spec fn position_value(amount: nat, rate: nat, price: nat) -> nat {
    (amount * rate / one()) * price / one()
}

/// Whether both products of `position_value` fit in 192 bits.
pub open spec fn position_value_defined(amount: nat, rate: nat, price: nat) -> bool {
    &&& amount * rate <= max_raw()
    &&& (amount * rate / one()) * price <= max_raw()
}

/// The least collateral that a loan of the raw value `value` asks for at
/// the raw ratio `ratio`.
pub open spec fn limit_of(value: nat, ratio: nat) -> nat {
    value * ratio / one()
}

/// `x`, or the largest raw value where `x` exceeds it.
pub open spec fn saturated(x: nat) -> nat {
    if x <= max_raw() {
        x
    } else {
        max_raw()
    }
}

/// Why the slot cannot be valued at `slot_time`, if it cannot: its
/// reserve has no fresh snapshot, or the value does not fit.
pub open spec fn slot_error(
    slot: Option<Position>,
    market: Seq<ReserveInfo>,
    slot_time: u64,
) -> Option<ErrorCode> {
    match slot {
        None => None,
        Some(p) => match snapshot_at(market, p.reserve_index as int, slot_time) {
            None => Some(ErrorCode::StaleData),
            Some(info) => if p.value_defined(&info) {
                None
            } else {
                Some(ErrorCode::Overflow)
            },
        },
    }
}

/// The raw market value of the slot's position; nothing for an empty
/// slot and for one that cannot be valued.
pub open spec fn slot_worth(
    slot: Option<Position>,
    market: Seq<ReserveInfo>,
    slot_time: u64,
) -> nat {
    match slot {
        None => 0,
        Some(p) => match snapshot_at(market, p.reserve_index as int, slot_time) {
            None => 0,
            Some(info) => p.value_spec(&info),
        },
    }
}

/// Why the first slot that cannot be valued cannot be, if there is one.
pub open spec fn pricing_error(
    slots: Seq<Option<Position>>,
    market: Seq<ReserveInfo>,
    slot_time: u64,
) -> Option<ErrorCode>
    decreases slots.len(),
{
    if slots.len() == 0 {
        None
    } else {
        match pricing_error(slots.drop_last(), market, slot_time) {
            Some(e) => Some(e),
            None => slot_error(slots.last(), market, slot_time),
        }
    }
}

/// The sum of the raw market values of the positions.
pub open spec fn loans_sum(
    slots: Seq<Option<Position>>,
    market: Seq<ReserveInfo>,
    slot_time: u64,
) -> nat
    decreases slots.len(),
{
    if slots.len() == 0 {
        0
    } else {
        loans_sum(slots.drop_last(), market, slot_time) + slot_worth(
            slots.last(),
            market,
            slot_time,
        )
    }
}

/// The collateral that the slot's position asks for; nothing for an
/// empty slot and for one that cannot be valued.
pub open spec fn slot_limit(
    slot: Option<Position>,
    market: Seq<ReserveInfo>,
    slot_time: u64,
) -> nat {
    match slot {
        None => 0,
        Some(p) => match snapshot_at(market, p.reserve_index as int, slot_time) {
            None => 0,
            Some(info) => limit_of(p.value_spec(&info), info.min_collateral_ratio@),
        },
    }
}

/// Whether the collateral that the slot's position asks for can be
/// computed in 192 bits.
pub open spec fn slot_limit_defined(
    slot: Option<Position>,
    market: Seq<ReserveInfo>,
    slot_time: u64,
) -> bool {
    match slot {
        None => true,
        Some(p) => match snapshot_at(market, p.reserve_index as int, slot_time) {
            None => false,
            Some(info) => p.value_spec(&info) * info.min_collateral_ratio@ <= max_raw(),
        },
    }
}

/// The collateral that the positions ask for together.
pub open spec fn limits_sum(
    slots: Seq<Option<Position>>,
    market: Seq<ReserveInfo>,
    slot_time: u64,
) -> nat
    decreases slots.len(),
{
    if slots.len() == 0 {
        0
    } else {
        limits_sum(slots.drop_last(), market, slot_time) + slot_limit(
            slots.last(),
            market,
            slot_time,
        )
    }
}

/// Whether the value of every position, the collateral that it asks
/// for and the sums of both can be computed in 192 bits.
pub open spec fn totals_defined(
    slots: Seq<Option<Position>>,
    market: Seq<ReserveInfo>,
    slot_time: u64,
) -> bool {
    &&& pricing_error(slots, market, slot_time) is None
    &&& forall|i: int|
        0 <= i < slots.len() ==> slot_limit_defined(#[trigger] slots[i], market, slot_time)
    &&& loans_sum(slots, market, slot_time) <= max_raw()
    &&& limits_sum(slots, market, slot_time) <= max_raw()
}

/// Whether the slot holds a position with notes outstanding.
pub open spec fn slot_active(slot: Option<Position>) -> bool {
    slot matches Some(p) && p.amount@ != 0
}

/// The raw collateral ratio that the slot's reserve asks for, where the
/// slot holds an outstanding loan and the reserve has a fresh snapshot.
pub open spec fn slot_ratio(
    slot: Option<Position>,
    market: Seq<ReserveInfo>,
    slot_time: u64,
) -> Option<nat> {
    match slot {
        None => None,
        Some(p) => if p.amount@ != 0 {
            match snapshot_at(market, p.reserve_index as int, slot_time) {
                None => None,
                Some(info) => Some(info.min_collateral_ratio@),
            }
        } else {
            None
        },
    }
}

/// The larger of two ratios, either of which may be missing.
pub open spec fn larger_ratio(a: Option<nat>, b: Option<nat>) -> Option<nat> {
    match (a, b) {
        (None, _) => b,
        (_, None) => a,
        (Some(x), Some(y)) => if x >= y {
            a
        } else {
            b
        },
    }
}

/// The strictest collateral ratio among the reserves in which the
/// obligation has a loan outstanding; none where it has no such loan.
pub open spec fn max_ratio(
    slots: Seq<Option<Position>>,
    market: Seq<ReserveInfo>,
    slot_time: u64,
) -> Option<nat>
    decreases slots.len(),
{
    if slots.len() == 0 {
        None
    } else {
        larger_ratio(
            max_ratio(slots.drop_last(), market, slot_time),
            slot_ratio(slots.last(), market, slot_time),
        )
    }
}

/// Whether every outstanding loan is in a reserve with a fresh snapshot.
pub open spec fn ratios_known(
    slots: Seq<Option<Position>>,
    market: Seq<ReserveInfo>,
    slot_time: u64,
) -> bool {
    forall|i: int|
        0 <= i < slots.len() && slot_active(#[trigger] slots[i]) ==> snapshot_at(
            market,
            slots[i]->0.reserve_index as int,
            slot_time,
        ) is Some
}

/// Whether collateral of the raw value `collateral` covers loans of the
/// raw value `loan` at the strictest ratio `ratio`. Without a loan
/// outstanding there is nothing to cover.
pub open spec fn covers(collateral: nat, loan: nat, ratio: Option<nat>) -> bool {
    match ratio {
        None => true,
        Some(r) => limit_of(loan, r) <= collateral,
    }
}

/// Whether an obligation with these loans and `collateral_count`
/// collateral items is healthy when one item is worth `price`.
pub open spec fn health_of(
    slots: Seq<Option<Position>>,
    collateral_count: nat,
    price: nat,
    market: Seq<ReserveInfo>,
    slot_time: u64,
) -> bool {
    covers(
        collateral_count * price,
        saturated(loans_sum(slots, market, slot_time)),
        max_ratio(slots, market, slot_time),
    )
}

/// Whether an obligation can be valued: the collateral's value must
/// fit, and every loan must be in a reserve with a fresh snapshot and
/// have a value that fits.
pub open spec fn valuation_result(
    slots: Seq<Option<Position>>,
    collateral_count: nat,
    price: nat,
    market: Seq<ReserveInfo>,
    slot_time: u64,
) -> Result<(), ErrorCode> {
    if collateral_count * price > max_raw() {
        Err(ErrorCode::Overflow)
    } else {
        match pricing_error(slots, market, slot_time) {
            Some(e) => Err(e),
            None => Ok(()),
        }
    }
}

/// What the health check gives on a cached valuation.
pub open spec fn health_result(
    slots: Seq<Option<Position>>,
    cached: Cache<CalculationCacheInner>,
    market: Seq<ReserveInfo>,
    slot_time: u64,
) -> Result<bool, ErrorCode> {
    if !ratios_known(slots, market, slot_time) {
        Err(ErrorCode::StaleData)
    } else {
        match max_ratio(slots, market, slot_time) {
            None => Ok(true),
            Some(ratio) => if !cached.is_fresh(slot_time) {
                Err(ErrorCode::StaleData)
            } else if cached.stale_value().loan_value@ * ratio > max_raw() {
                Err(ErrorCode::Overflow)
            } else {
                Ok(
                    covers(
                        cached.stale_value().collateral_value@,
                        cached.stale_value().loan_value@,
                        Some(ratio),
                    ),
                )
            },
        }
    }
}

/// Whether the collateral covers the loans once the obligation is
/// valued anew, or why that cannot be told.
pub open spec fn revalued_health(
    slots: Seq<Option<Position>>,
    collateral_count: nat,
    price: nat,
    market: Seq<ReserveInfo>,
    slot_time: u64,
) -> Result<bool, ErrorCode> {
    match valuation_result(slots, collateral_count, price, market, slot_time) {
        Err(e) => Err(e),
        Ok(()) => match max_ratio(slots, market, slot_time) {
            None => Ok(true),
            Some(ratio) => if saturated(loans_sum(slots, market, slot_time)) * ratio > max_raw() {
                Err(ErrorCode::Overflow)
            } else {
                Ok(health_of(slots, collateral_count, price, market, slot_time))
            },
        },
    }
}

/// Taking one more slot into account adds its worth to the sum, and the
/// first error is the one met so far or that slot's.
pub proof fn lemma_valuation_step(
    slots: Seq<Option<Position>>,
    market: Seq<ReserveInfo>,
    slot_time: u64,
    i: int,
)
    requires
        0 <= i < slots.len(),
    ensures
        loans_sum(slots.take(i + 1), market, slot_time) == loans_sum(
            slots.take(i),
            market,
            slot_time,
        ) + slot_worth(slots[i], market, slot_time),
        pricing_error(slots.take(i + 1), market, slot_time) == match pricing_error(
            slots.take(i),
            market,
            slot_time,
        ) {
            Some(e) => Some(e),
            None => slot_error(slots[i], market, slot_time),
        },
        max_ratio(slots.take(i + 1), market, slot_time) == larger_ratio(
            max_ratio(slots.take(i), market, slot_time),
            slot_ratio(slots[i], market, slot_time),
        ),
{
    assert(slots.take(i + 1).drop_last() =~= slots.take(i));
}

/// Taking one more slot into account adds what its position asks for.
pub proof fn lemma_limits_step(
    slots: Seq<Option<Position>>,
    market: Seq<ReserveInfo>,
    slot_time: u64,
    i: int,
)
    requires
        0 <= i < slots.len(),
    ensures
        limits_sum(slots.take(i + 1), market, slot_time) == limits_sum(
            slots.take(i),
            market,
            slot_time,
        ) + slot_limit(slots[i], market, slot_time),
{
    assert(slots.take(i + 1).drop_last() =~= slots.take(i));
}

/// The sums over the first slots are at most the sums over all.
pub proof fn lemma_sums_prefix(
    slots: Seq<Option<Position>>,
    market: Seq<ReserveInfo>,
    slot_time: u64,
    n: int,
)
    requires
        0 <= n <= slots.len(),
    ensures
        loans_sum(slots.take(n), market, slot_time) <= loans_sum(slots, market, slot_time),
        limits_sum(slots.take(n), market, slot_time) <= limits_sum(slots, market, slot_time),
    decreases slots.len() - n,
{
    if n == slots.len() {
        assert(slots.take(n) =~= slots);
    } else {
        lemma_valuation_step(slots, market, slot_time, n);
        lemma_limits_step(slots, market, slot_time, n);
        lemma_sums_prefix(slots, market, slot_time, n + 1);
    }
}

/// An error met among the first slots is met among all of them.
pub proof fn lemma_error_persists(
    slots: Seq<Option<Position>>,
    market: Seq<ReserveInfo>,
    slot_time: u64,
    n: int,
)
    requires
        0 <= n <= slots.len(),
        pricing_error(slots.take(n), market, slot_time) is Some,
    ensures
        pricing_error(slots, market, slot_time) == pricing_error(slots.take(n), market, slot_time),
    decreases slots.len() - n,
{
    if n == slots.len() {
        assert(slots.take(n) =~= slots);
    } else {
        lemma_valuation_step(slots, market, slot_time, n);
        lemma_error_persists(slots, market, slot_time, n + 1);
    }
}

/// Where no slot fails to be valued, none of the first slots does, and
/// neither does any single slot.
pub proof fn lemma_no_error_at(
    slots: Seq<Option<Position>>,
    market: Seq<ReserveInfo>,
    slot_time: u64,
    i: int,
)
    requires
        0 <= i < slots.len(),
        pricing_error(slots, market, slot_time) is None,
    ensures
        slot_error(slots[i], market, slot_time) is None,
        pricing_error(slots.take(i), market, slot_time) is None,
{
    lemma_valuation_step(slots, market, slot_time, i);
    if pricing_error(slots.take(i + 1), market, slot_time) is Some {
        lemma_error_persists(slots, market, slot_time, i + 1);
    }
}

/// Where every position can be valued, every reserve with a loan
/// outstanding has a fresh snapshot.
pub proof fn lemma_priced_ratios_known(
    slots: Seq<Option<Position>>,
    market: Seq<ReserveInfo>,
    slot_time: u64,
)
    requires
        pricing_error(slots, market, slot_time) is None,
    ensures
        ratios_known(slots, market, slot_time),
{
    assert forall|i: int|
        0 <= i < slots.len() && slot_active(#[trigger] slots[i]) implies snapshot_at(
        market,
        slots[i]->0.reserve_index as int,
        slot_time,
    ) is Some by {
        lemma_no_error_at(slots, market, slot_time, i);
    }
}

/// Whether the ratio `a`, which may be missing, is at most `b`.
pub open spec fn ratio_at_most(a: Option<nat>, b: Option<nat>) -> bool {
    match a {
        None => true,
        Some(x) => b matches Some(y) && x <= y,
    }
}

/// More notes are never worth less.
pub proof fn lemma_position_value_monotone(a1: nat, a2: nat, rate: nat, price: nat)
    requires
        a1 <= a2,
    ensures
        position_value(a1, rate, price) <= position_value(a2, rate, price),
{
    assert(a1 * rate <= a2 * rate) by (nonlinear_arith)
        requires
            a1 <= a2,
    ;
    let t1 = a1 * rate / one();
    let t2 = a2 * rate / one();
    assert(t1 <= t2) by (nonlinear_arith)
        requires
            a1 * rate <= a2 * rate,
            t1 == a1 * rate / one(),
            t2 == a2 * rate / one(),
            one() == 1_000_000_000_000_000,
    ;
    assert(t1 * price <= t2 * price) by (nonlinear_arith)
        requires
            t1 <= t2,
    ;
    assert(t1 * price / one() <= t2 * price / one()) by (nonlinear_arith)
        requires
            t1 * price <= t2 * price,
            one() == 1_000_000_000_000_000,
    ;
}

/// A larger loan at a stricter ratio asks for no less collateral.
pub proof fn lemma_limit_monotone(l1: nat, l2: nat, r1: nat, r2: nat)
    requires
        l1 <= l2,
        r1 <= r2,
    ensures
        limit_of(l1, r1) <= limit_of(l2, r2),
{
    assert(l1 * r1 <= l2 * r2) by (nonlinear_arith)
        requires
            l1 <= l2,
            r1 <= r2,
    ;
    assert(l1 * r1 / one() <= l2 * r2 / one()) by (nonlinear_arith)
        requires
            l1 * r1 <= l2 * r2,
            one() == 1_000_000_000_000_000,
    ;
}

/// Raising the notes of one position lowers neither the sum of the
/// loans' values nor the strictest ratio.
pub proof fn lemma_more_debt(
    slots: Seq<Option<Position>>,
    i: int,
    amount: Number,
    market: Seq<ReserveInfo>,
    slot_time: u64,
)
    requires
        0 <= i < slots.len(),
        slots[i] is Some,
        slots[i]->0.amount@ <= amount@,
    ensures
        loans_sum(slots, market, slot_time) <= loans_sum(
            with_amount(slots, i, amount),
            market,
            slot_time,
        ),
        ratio_at_most(
            max_ratio(slots, market, slot_time),
            max_ratio(with_amount(slots, i, amount), market, slot_time),
        ),
    decreases slots.len(),
{
    let after = with_amount(slots, i, amount);
    if i == slots.len() - 1 {
        assert(after.drop_last() =~= slots.drop_last());
        let p = slots[i]->0;
        match snapshot_at(market, p.reserve_index as int, slot_time) {
            None => {},
            Some(info) => {
                lemma_position_value_monotone(
                    p.amount@,
                    amount@,
                    info.loan_note_exchange_rate@,
                    info.price@,
                );
            },
        }
    } else {
        lemma_more_debt(slots.drop_last(), i, amount, market, slot_time);
        assert(after.drop_last() =~= with_amount(slots.drop_last(), i, amount));
        assert(after.last() == slots.last());
    }
}

/// A higher price of the collateral never turns a healthy obligation
/// unhealthy.
pub proof fn lemma_price_keeps_healthy(
    slots: Seq<Option<Position>>,
    collateral_count: nat,
    price: nat,
    higher_price: nat,
    market: Seq<ReserveInfo>,
    slot_time: u64,
)
    requires
        price <= higher_price,
        health_of(slots, collateral_count, price, market, slot_time),
    ensures
        health_of(slots, collateral_count, higher_price, market, slot_time),
{
    assert(collateral_count * price <= collateral_count * higher_price) by (nonlinear_arith)
        requires
            price <= higher_price,
    ;
}

/// More notes owed on a position never turn an unhealthy obligation
/// healthy.
pub proof fn lemma_debt_keeps_unhealthy(
    slots: Seq<Option<Position>>,
    i: int,
    amount: Number,
    collateral_count: nat,
    price: nat,
    market: Seq<ReserveInfo>,
    slot_time: u64,
)
    requires
        0 <= i < slots.len(),
        slots[i] is Some,
        slots[i]->0.amount@ <= amount@,
        !health_of(slots, collateral_count, price, market, slot_time),
    ensures
        !health_of(with_amount(slots, i, amount), collateral_count, price, market, slot_time),
{
    lemma_more_debt(slots, i, amount, market, slot_time);
    let after = with_amount(slots, i, amount);
    let r1 = max_ratio(slots, market, slot_time);
    let r2 = max_ratio(after, market, slot_time);
    lemma_limit_monotone(
        saturated(loans_sum(slots, market, slot_time)),
        saturated(loans_sum(after, market, slot_time)),
        r1->0,
        r2->0,
    );
}

} // verus!
