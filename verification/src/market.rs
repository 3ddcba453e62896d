//! What a market knows of its reserves: for each a snapshot of its
//! price and exchange rates, trusted only while fresh.

use vstd::prelude::*;
use crate::cache::Cache;
use crate::common::Rounding;
use crate::errors::{overflow_unless, ErrorCode};
use crate::keys::StoredPubkey;
use crate::number::{
    integer_at, integer_ceil_at, lemma_pow10_values, max_raw, one, raw_of_decimal, scale_of, Number,
};

verus! {

/// The place of a reserve in its market.
pub type ReserveIndex = u16;

/// The number of reserves that a market can hold.
pub const MAX_RESERVES: usize = 32;

/// A snapshot of what a reserve's notes and tokens are worth.
#[derive(Clone, Copy, Debug)]
pub struct CachedReserveInfo {
    /// The price of one token.
    pub price: Number,
    /// The tokens that one deposit note is worth.
    pub deposit_note_exchange_rate: Number,
    /// The tokens that one loan note is worth.
    pub loan_note_exchange_rate: Number,
    /// The least collateral that a loan asks for, as a ratio of the
    /// loan's value.
    pub min_collateral_ratio: Number,
    /// The bonus given to a liquidator, in hundredths of a percent.
    pub liquidation_bonus: u16,
}

/// The price that the market's oracle gave for one collateral item.
#[derive(Clone, Copy, Debug)]
pub struct MarketOracle {
    pub price: Number,
}

/// What a market records of one of its reserves.
#[derive(Clone, Copy, Debug)]
pub struct ReserveInfo {
    /// The reserve's account.
    pub reserve: StoredPubkey,
    /// The snapshot of the reserve's price and exchange rates.
    pub cache: Cache<CachedReserveInfo>,
}

/// The reserves of a market, each at the index that it was registered
/// under. The view is the sequence of their records.
#[derive(Debug)]
pub struct MarketReserves {
    reserve_info: Vec<ReserveInfo>,
}

impl View for MarketReserves {
    type V = Seq<ReserveInfo>;

    closed spec fn view(&self) -> Seq<ReserveInfo> {
        self.reserve_info@
    }
}

/// The tokens that `notes` notes are worth at the raw exchange rate
/// `rate`, rounded as asked.
pub open spec fn tokens_of_notes(notes: nat, rate: nat, rounding: Rounding) -> nat {
    match rounding {
        Rounding::Down => notes * rate / one(),
        Rounding::Up => (notes * rate + one() - 1) as nat / one(),
    }
}

/// The notes that `tokens` tokens are worth at the raw exchange rate
/// `rate`, rounded as asked. The quotient is first rounded down to
/// fifteen fractional digits.
pub open spec fn notes_of_tokens(tokens: nat, rate: nat, rounding: Rounding) -> nat {
    let raw = tokens * one() * one() / rate;
    match rounding {
        Rounding::Down => raw / one(),
        Rounding::Up => (raw + one() - 1) as nat / one(),
    }
}

/// Whether the tokens for the notes can be computed in 192 bits and fit
/// in 64.
pub open spec fn tokens_of_notes_defined(notes: nat, rate: nat, rounding: Rounding) -> bool {
    &&& notes * one() * rate <= max_raw()
    &&& tokens_of_notes(notes, rate, rounding) <= u64::MAX
}

/// Whether the notes for the tokens can be computed and fit in 64 bits.
pub open spec fn notes_of_tokens_defined(tokens: nat, rate: nat, rounding: Rounding) -> bool {
    &&& rate > 0
    &&& notes_of_tokens(tokens, rate, rounding) <= u64::MAX
}

/// Whether every value of the snapshot is zero.
pub open spec fn is_zeroed(info: CachedReserveInfo) -> bool {
    &&& info.price@ == 0
    &&& info.deposit_note_exchange_rate@ == 0
    &&& info.loan_note_exchange_rate@ == 0
    &&& info.min_collateral_ratio@ == 0
    &&& info.liquidation_bonus == 0
}

/// The price that an oracle gave as `mantissa` times ten to the minus
/// `scale`. A negative mantissa is no price, and neither is a scale
/// beyond what the conversions accept.
pub open spec fn oracle_price_spec(mantissa: i128, scale: u32) -> Result<nat, ErrorCode> {
    if mantissa < 0 || scale > 31 {
        Err(ErrorCode::InvalidOraclePrice)
    } else {
        Ok(raw_of_decimal(mantissa as nat, -(scale as int)))
    }
}

/// The snapshot of the reserve at `index`, if the market has that
/// reserve and its snapshot is fresh at `slot`.
pub open spec fn snapshot_at(market: Seq<ReserveInfo>, index: int, slot: u64) -> Option<
    CachedReserveInfo,
> {
    if 0 <= index < market.len() && market[index].cache.is_fresh(slot) {
        Some(market[index].cache.stale_value())
    } else {
        None
    }
}

/// Multiplying by one and by a rate and dividing by one again gives the
/// product with the rate.
proof fn lemma_scaled_product(n: nat, rate: nat)
    ensures
        (n * one()) * rate / one() == n * rate,
        n * one() * rate == n * rate * one(),
{
    assert((n * one()) * rate == (n * rate) * one()) by (nonlinear_arith);
    assert((n * rate) * one() / one() == n * rate) by (nonlinear_arith);
}

/// The integer of a raw value at exponent zero is the raw value divided
/// by one; rounded up, one less than one is added first.
proof fn lemma_integer_at_zero(raw: nat)
    ensures
        scale_of(0) == one(),
        integer_at(raw, 0) == raw / one(),
        integer_ceil_at(raw, 0) == (raw + one() - 1) as nat / one(),
{
    lemma_pow10_values();
}

/// The tokens for `notes` at `rate`, or `None` where they cannot be
/// computed or do not fit.
fn convert_to_tokens(notes: u64, rate: Number, rounding: Rounding) -> (r: Option<u64>)
    ensures
        tokens_of_notes_defined(notes as nat, rate@, rounding) ==> r == Some(
            tokens_of_notes(notes as nat, rate@, rounding) as u64,
        ),
        !tokens_of_notes_defined(notes as nat, rate@, rounding) ==> r is None,
{
    proof {
        lemma_scaled_product(notes as nat, rate@);
    }
    match Number::from_u64(notes).checked_mul(rate) {
        None => None,
        Some(tokens) => {
            proof {
                lemma_integer_at_zero(tokens@);
                assert(tokens@ + one() - 1 <= max_raw()) by (nonlinear_arith)
                    requires
                        tokens@ * one() <= max_raw(),
                        one() == 1_000_000_000_000_000,
                ;
            }
            match rounding {
                Rounding::Down => tokens.checked_as_u64(0),
                Rounding::Up => tokens.checked_as_u64_ceil(0),
            }
        },
    }
}

/// The notes for `tokens` at `rate`, or `None` where they cannot be
/// computed or do not fit.
fn convert_from_tokens(tokens: u64, rate: Number, rounding: Rounding) -> (r: Option<u64>)
    ensures
        notes_of_tokens_defined(tokens as nat, rate@, rounding) ==> r == Some(
            notes_of_tokens(tokens as nat, rate@, rounding) as u64,
        ),
        !notes_of_tokens_defined(tokens as nat, rate@, rounding) ==> r is None,
{
    proof {
        assert(tokens * one() * one() <= max_raw()) by (nonlinear_arith)
            requires
                tokens <= u64::MAX,
                one() == 1_000_000_000_000_000,
                max_raw() == 0xffff_ffff_ffff_ffff_ffff_ffff_ffff_ffff_ffff_ffff_ffff_ffffnat,
        ;
    }
    match Number::from_u64(tokens).checked_div(rate) {
        None => None,
        Some(notes) => {
            proof {
                lemma_integer_at_zero(notes@);
                assert(notes@ <= (tokens as nat) * one() * one()) by (nonlinear_arith)
                    requires
                        rate@ > 0,
                        notes@ == (tokens as nat) * one() * one() / rate@,
                ;
                assert(tokens * one() * one() + one() - 1 <= max_raw()) by (nonlinear_arith)
                    requires
                        tokens <= u64::MAX,
                        one() == 1_000_000_000_000_000,
                        max_raw()
                            == 0xffff_ffff_ffff_ffff_ffff_ffff_ffff_ffff_ffff_ffff_ffff_ffffnat,
                ;
            }
            match rounding {
                Rounding::Down => notes.checked_as_u64(0),
                Rounding::Up => notes.checked_as_u64_ceil(0),
            }
        },
    }
}

impl CachedReserveInfo {
    /// A snapshot in which every value is zero.
    pub fn zeroed() -> (r: CachedReserveInfo)
        ensures
            is_zeroed(r),
    {
        CachedReserveInfo {
            price: Number::zero(),
            deposit_note_exchange_rate: Number::zero(),
            loan_note_exchange_rate: Number::zero(),
            min_collateral_ratio: Number::zero(),
            liquidation_bonus: 0,
        }
    }

    /// The deposit notes that `tokens` tokens are worth.
    pub fn deposit_notes_from_tokens(&self, tokens: u64, rounding: Rounding) -> (r: u64)
        requires
            notes_of_tokens_defined(tokens as nat, self.deposit_note_exchange_rate@, rounding),
        ensures
            r == notes_of_tokens(tokens as nat, self.deposit_note_exchange_rate@, rounding),
    {
        convert_from_tokens(tokens, self.deposit_note_exchange_rate, rounding).unwrap()
    }

    /// The tokens that `notes` deposit notes are worth.
    pub fn deposit_notes_to_tokens(&self, notes: u64, rounding: Rounding) -> (r: u64)
        requires
            tokens_of_notes_defined(notes as nat, self.deposit_note_exchange_rate@, rounding),
        ensures
            r == tokens_of_notes(notes as nat, self.deposit_note_exchange_rate@, rounding),
    {
        convert_to_tokens(notes, self.deposit_note_exchange_rate, rounding).unwrap()
    }

    /// The loan notes that `tokens` tokens are worth.
    pub fn loan_notes_from_tokens(&self, tokens: u64, rounding: Rounding) -> (r: u64)
        requires
            notes_of_tokens_defined(tokens as nat, self.loan_note_exchange_rate@, rounding),
        ensures
            r == notes_of_tokens(tokens as nat, self.loan_note_exchange_rate@, rounding),
    {
        convert_from_tokens(tokens, self.loan_note_exchange_rate, rounding).unwrap()
    }

    /// The tokens that `notes` loan notes are worth.
    pub fn loan_notes_to_tokens(&self, notes: u64, rounding: Rounding) -> (r: u64)
        requires
            tokens_of_notes_defined(notes as nat, self.loan_note_exchange_rate@, rounding),
        ensures
            r == tokens_of_notes(notes as nat, self.loan_note_exchange_rate@, rounding),
    {
        convert_to_tokens(notes, self.loan_note_exchange_rate, rounding).unwrap()
    }

    /// As `deposit_notes_from_tokens`, with `Overflow` where the notes
    /// cannot be computed or do not fit in 64 bits.
    pub fn checked_deposit_notes_from_tokens(&self, tokens: u64, rounding: Rounding) -> (r:
        Result<u64, ErrorCode>)
        ensures
            notes_of_tokens_defined(tokens as nat, self.deposit_note_exchange_rate@, rounding)
                ==> r == Ok::<u64, ErrorCode>(
                notes_of_tokens(tokens as nat, self.deposit_note_exchange_rate@, rounding) as u64,
            ),
            !notes_of_tokens_defined(tokens as nat, self.deposit_note_exchange_rate@, rounding)
                ==> r == Err::<u64, ErrorCode>(ErrorCode::Overflow),
    {
        overflow_unless(convert_from_tokens(tokens, self.deposit_note_exchange_rate, rounding))
    }

    /// As `deposit_notes_to_tokens`, with `Overflow` where the tokens
    /// cannot be computed or do not fit in 64 bits.
    pub fn checked_deposit_notes_to_tokens(&self, notes: u64, rounding: Rounding) -> (r: Result<
        u64,
        ErrorCode,
    >)
        ensures
            tokens_of_notes_defined(notes as nat, self.deposit_note_exchange_rate@, rounding)
                ==> r == Ok::<u64, ErrorCode>(
                tokens_of_notes(notes as nat, self.deposit_note_exchange_rate@, rounding) as u64,
            ),
            !tokens_of_notes_defined(notes as nat, self.deposit_note_exchange_rate@, rounding)
                ==> r == Err::<u64, ErrorCode>(ErrorCode::Overflow),
    {
        overflow_unless(convert_to_tokens(notes, self.deposit_note_exchange_rate, rounding))
    }

    /// As `loan_notes_from_tokens`, with `Overflow` where the notes
    /// cannot be computed or do not fit in 64 bits.
    pub fn checked_loan_notes_from_tokens(&self, tokens: u64, rounding: Rounding) -> (r: Result<
        u64,
        ErrorCode,
    >)
        ensures
            notes_of_tokens_defined(tokens as nat, self.loan_note_exchange_rate@, rounding) ==> r
                == Ok::<u64, ErrorCode>(
                notes_of_tokens(tokens as nat, self.loan_note_exchange_rate@, rounding) as u64,
            ),
            !notes_of_tokens_defined(tokens as nat, self.loan_note_exchange_rate@, rounding)
                ==> r == Err::<u64, ErrorCode>(ErrorCode::Overflow),
    {
        overflow_unless(convert_from_tokens(tokens, self.loan_note_exchange_rate, rounding))
    }

    /// As `loan_notes_to_tokens`, with `Overflow` where the tokens
    /// cannot be computed or do not fit in 64 bits.
    pub fn checked_loan_notes_to_tokens(&self, notes: u64, rounding: Rounding) -> (r: Result<
        u64,
        ErrorCode,
    >)
        ensures
            tokens_of_notes_defined(notes as nat, self.loan_note_exchange_rate@, rounding) ==> r
                == Ok::<u64, ErrorCode>(
                tokens_of_notes(notes as nat, self.loan_note_exchange_rate@, rounding) as u64,
            ),
            !tokens_of_notes_defined(notes as nat, self.loan_note_exchange_rate@, rounding)
                ==> r == Err::<u64, ErrorCode>(ErrorCode::Overflow),
    {
        overflow_unless(convert_to_tokens(notes, self.loan_note_exchange_rate, rounding))
    }
}

/// The price that an oracle gave as `mantissa` times ten to the minus
/// `scale`.
pub fn oracle_price(mantissa: i128, scale: u32) -> (r: Result<Number, ErrorCode>)
    ensures
        match oracle_price_spec(mantissa, scale) {
            Ok(raw) => r is Ok && r->Ok_0@ == raw,
            Err(e) => r == Err::<Number, ErrorCode>(e),
        },
{
    if mantissa < 0 || scale > 31 {
        return Err(ErrorCode::InvalidOraclePrice);
    }
    Ok(Number::from_decimal(mantissa as u128, -(scale as i32)))
}

impl MarketReserves {
    /// A market holds at most `MAX_RESERVES` reserves.
    pub open spec fn wf(&self) -> bool {
        self@.len() <= MAX_RESERVES
    }

    /// A market without reserves.
    pub fn new() -> (r: MarketReserves)
        ensures
            r.wf(),
            r@.len() == 0,
    {
        MarketReserves { reserve_info: Vec::new() }
    }

    /// The number of reserves registered.
    pub fn len(&self) -> (r: usize)
        ensures
            r == self@.len(),
    {
        self.reserve_info.len()
    }

    /// Registers a reserve under the next free index, with a snapshot of
    /// zeros as of slot zero.
    pub fn register(&mut self, reserve: &StoredPubkey) -> (r: Result<ReserveIndex, ErrorCode>)
        requires
            old(self).wf(),
        ensures
            final(self).wf(),
            old(self)@.len() == MAX_RESERVES ==> r == Err::<ReserveIndex, ErrorCode>(
                ErrorCode::NoFreeReserves,
            ) && final(self)@ == old(self)@,
            old(self)@.len() < MAX_RESERVES ==> r == Ok::<ReserveIndex, ErrorCode>(
                old(self)@.len() as ReserveIndex,
            ),
            old(self)@.len() < MAX_RESERVES ==> final(self)@.len() == old(self)@.len() + 1,
            old(self)@.len() < MAX_RESERVES ==> final(self)@.drop_last() == old(self)@,
            old(self)@.len() < MAX_RESERVES ==> final(self)@.last().reserve == *reserve,
            old(self)@.len() < MAX_RESERVES ==> final(self)@.last().cache.is_fresh(0),
            old(self)@.len() < MAX_RESERVES ==> final(self)@.last().cache.as_of() == 0,
            old(self)@.len() < MAX_RESERVES ==> is_zeroed(final(self)@.last().cache.stale_value()),
    {
        let n = self.reserve_info.len();
        if n >= MAX_RESERVES {
            return Err(ErrorCode::NoFreeReserves);
        }
        self.reserve_info.push(
            ReserveInfo { reserve: *reserve, cache: Cache::new(CachedReserveInfo::zeroed(), 0) },
        );
        assert(self.reserve_info@.drop_last() =~= old(self).reserve_info@);
        Ok(n as ReserveIndex)
    }

    /// The record of the reserve at `index`.
    pub fn get(&self, index: ReserveIndex) -> (r: &ReserveInfo)
        requires
            index < self@.len(),
        ensures
            *r == self@[index as int],
    {
        &self.reserve_info[index as usize]
    }

    /// The record of the reserve at `index`, to be changed in place.
    pub fn get_mut(&mut self, index: ReserveIndex) -> (r: &mut ReserveInfo)
        requires
            index < old(self)@.len(),
        ensures
            *r == old(self)@[index as int],
            final(self)@ == old(self)@.update(index as int, *final(r)),
    {
        &mut self.reserve_info[index as usize]
    }

    /// The snapshot of the reserve at `index`, which the caller knows to
    /// be fresh at `slot`.
    pub fn get_cached(&self, index: ReserveIndex, slot: u64) -> (r: &CachedReserveInfo)
        requires
            snapshot_at(self@, index as int, slot) is Some,
        ensures
            Some(*r) == snapshot_at(self@, index as int, slot),
    {
        self.reserve_info[index as usize].cache.expect(slot)
    }

    /// The snapshot of the reserve at `index`, or `StaleData` where the
    /// market has no such reserve or its snapshot is not fresh at `slot`.
    pub fn try_get_cached(&self, index: ReserveIndex, slot: u64) -> (r: Result<
        &CachedReserveInfo,
        ErrorCode,
    >)
        ensures
            match snapshot_at(self@, index as int, slot) {
                Some(info) => r == Ok::<&CachedReserveInfo, ErrorCode>(&info),
                None => r == Err::<&CachedReserveInfo, ErrorCode>(ErrorCode::StaleData),
            },
    {
        if (index as usize) < self.reserve_info.len() {
            self.reserve_info[index as usize].cache.try_get(slot)
        } else {
            Err(ErrorCode::StaleData)
        }
    }
}

/// More tokens never buy fewer notes.
pub proof fn lemma_notes_monotone(t1: nat, t2: nat, rate: nat)
    requires
        rate > 0,
        t1 <= t2,
    ensures
        notes_of_tokens(t1, rate, Rounding::Down) <= notes_of_tokens(t2, rate, Rounding::Down),
{
    let a1 = t1 * one() * one() / rate;
    let a2 = t2 * one() * one() / rate;
    assert(t1 * one() * one() <= t2 * one() * one()) by (nonlinear_arith)
        requires
            t1 <= t2,
    ;
    assert(a1 <= a2) by (nonlinear_arith)
        requires
            rate > 0,
            t1 * one() * one() <= t2 * one() * one(),
            a1 == t1 * one() * one() / rate,
            a2 == t2 * one() * one() / rate,
    ;
}

/// Rounding never creates value: the notes that tokens buy, rounded
/// down, are worth at most those tokens, even rounded up, and buying
/// notes again with what they are worth gives no more notes than before.
pub proof fn lemma_rounding_creates_no_value(tokens: nat, rate: nat)
    requires
        rate > 0,
    ensures
        tokens_of_notes(notes_of_tokens(tokens, rate, Rounding::Down), rate, Rounding::Up)
            <= tokens,
        notes_of_tokens(
            tokens_of_notes(notes_of_tokens(tokens, rate, Rounding::Down), rate, Rounding::Up),
            rate,
            Rounding::Down,
        ) <= notes_of_tokens(tokens, rate, Rounding::Down),
{
    let a = tokens * one() * one() / rate;
    let n1 = a / one();
    assert(n1 == notes_of_tokens(tokens, rate, Rounding::Down));
    assert(a * rate <= tokens * one() * one()) by (nonlinear_arith)
        requires
            rate > 0,
            a == tokens * one() * one() / rate,
    ;
    assert(n1 * one() <= a) by (nonlinear_arith)
        requires
            n1 == a / one(),
            one() == 1_000_000_000_000_000,
    ;
    assert((n1 * rate) * one() <= (tokens * one()) * one()) by (nonlinear_arith)
        requires
            n1 * one() <= a,
            a * rate <= tokens * one() * one(),
    ;
    assert(n1 * rate <= tokens * one()) by (nonlinear_arith)
        requires
            (n1 * rate) * one() <= (tokens * one()) * one(),
            one() == 1_000_000_000_000_000,
    ;
    let back = tokens_of_notes(n1, rate, Rounding::Up);
    assert(back <= tokens) by (nonlinear_arith)
        requires
            back == (n1 * rate + one() - 1) as nat / one(),
            n1 * rate <= tokens * one(),
            one() == 1_000_000_000_000_000,
    ;
    lemma_notes_monotone(back, tokens, rate);
}

/// Buying notes again with what the notes that tokens buy are worth
/// gives the same notes once more.
pub proof fn lemma_round_trip_is_stable(tokens: nat, rate: nat)
    requires
        rate > 0,
    ensures
        notes_of_tokens(
            tokens_of_notes(notes_of_tokens(tokens, rate, Rounding::Down), rate, Rounding::Up),
            rate,
            Rounding::Down,
        ) == notes_of_tokens(tokens, rate, Rounding::Down),
{
    lemma_rounding_creates_no_value(tokens, rate);
    let n1 = notes_of_tokens(tokens, rate, Rounding::Down);
    let back = tokens_of_notes(n1, rate, Rounding::Up);
    assert(back * one() >= n1 * rate) by (nonlinear_arith)
        requires
            back == (n1 * rate + one() - 1) as nat / one(),
            one() == 1_000_000_000_000_000,
    ;
    assert(back * one() * one() >= (n1 * one()) * rate) by (nonlinear_arith)
        requires
            back * one() >= n1 * rate,
    ;
    let a = back * one() * one() / rate;
    assert(a >= n1 * one()) by (nonlinear_arith)
        requires
            rate > 0,
            back * one() * one() >= (n1 * one()) * rate,
            a == back * one() * one() / rate,
    ;
    assert(a / one() >= n1) by (nonlinear_arith)
        requires
            a >= n1 * one(),
            one() == 1_000_000_000_000_000,
    ;
}

/// Turning tokens into deposit notes, the notes into tokens and those
/// into notes again gives at most as many notes as there were tokens
/// exactly where the tokens buy no more notes than they are, as they do
/// at every exchange rate of one or more.
pub proof fn lemma_unit_round_trip(tokens: nat, rate: nat)
    requires
        rate > 0,
    ensures
        notes_of_tokens(
            tokens_of_notes(notes_of_tokens(tokens, rate, Rounding::Down), rate, Rounding::Up),
            rate,
            Rounding::Down,
        ) <= tokens <==> notes_of_tokens(tokens, rate, Rounding::Down) <= tokens,
        rate >= one() ==> notes_of_tokens(
            tokens_of_notes(notes_of_tokens(tokens, rate, Rounding::Down), rate, Rounding::Up),
            rate,
            Rounding::Down,
        ) <= tokens,
{
    lemma_round_trip_is_stable(tokens, rate);
    if rate >= one() {
        let a = tokens * one() * one() / rate;
        assert(a <= tokens * one()) by (nonlinear_arith)
            requires
                rate >= one(),
                one() == 1_000_000_000_000_000,
                a == tokens * one() * one() / rate,
        ;
        assert(a / one() <= tokens) by (nonlinear_arith)
            requires
                a <= tokens * one(),
                one() == 1_000_000_000_000_000,
        ;
    }
}

} // verus!
