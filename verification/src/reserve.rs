//! A reserve: an interest-bearing pool of one token.

use vstd::prelude::*;
use crate::cache::Cache;
use crate::errors::{overflow_unless, ErrorCode};
use crate::keys::StoredPubkey;
use crate::market::ReserveIndex;
use crate::number::{exponent_ok, lemma_pow10_values, max_raw, one, raw_of_decimal, Number};

verus! {

/// The rules of a reserve. Rates and ratios are in hundredths of a
/// percent.
#[derive(Clone, Copy, Debug)]
pub struct ReserveConfig {
    /// The utilization at which the first regime of the interest curve
    /// ends.
    pub utilization_rate_1: u16,
    /// The utilization at which the second regime ends.
    pub utilization_rate_2: u16,
    /// The yearly interest rate without any utilization.
    pub borrow_rate_0: u16,
    /// The yearly interest rate at the end of the first regime.
    pub borrow_rate_1: u16,
    /// The yearly interest rate at the end of the second regime.
    pub borrow_rate_2: u16,
    /// The yearly interest rate at full utilization.
    pub borrow_rate_3: u16,
    /// The least collateral that a loan asks for, as a ratio of its value.
    pub min_collateral_ratio: u16,
    /// The share of what a bid leaves over that goes to the protocol.
    pub liquidation_premium: u16,
    /// The fees, in tokens, under which none are collected.
    pub manage_fee_collection_threshold: u64,
    /// The share of the interest that is kept as a fee.
    pub manage_fee_rate: u16,
    /// The fee on the tokens of a new loan.
    pub loan_origination_fee: u16,
    /// The fee on the tokens of a new loan that goes to the protocol.
    pub protocol_fee_rate: u16,
}

/// What a reserve holds and is owed.
#[derive(Clone, Copy, Debug)]
pub struct ReserveState {
    /// The time up to which interest has accrued.
    pub accrued_until: i64,
    /// The tokens owed by the borrowers.
    pub outstanding_debt: Number,
    /// The fees, in tokens, not yet collected.
    pub uncollected_fees: Number,
    /// The protocol's fees, in tokens, not yet collected.
    pub uncollected_protocol_fees: Number,
    /// The tokens in the vault.
    pub total_deposits: u64,
    /// The deposit notes in existence.
    pub total_deposit_notes: u64,
    /// The loan notes in existence.
    pub total_loan_notes: u64,
}

/// A reserve of one market.
#[derive(Clone, Copy, Debug)]
pub struct Reserve {
    pub version: u16,
    /// The place of the reserve in its market.
    pub index: ReserveIndex,
    /// The exponent that turns an amount of the token into tokens.
    pub exponent: i32,
    pub market: StoredPubkey,
    /// The account of the oracle for the token's price.
    pub switchboard_price_aggregator: StoredPubkey,
    pub token_mint: StoredPubkey,
    pub deposit_note_mint: StoredPubkey,
    pub loan_note_mint: StoredPubkey,
    pub vault: StoredPubkey,
    pub fee_note_vault: StoredPubkey,
    pub protocol_fee_note_vault: StoredPubkey,
    pub config: ReserveConfig,
    /// The state, trusted only while fresh.
    pub state: Cache<ReserveState>,
}

/// The fee on `tokens` tokens at `bps` hundredths of a percent, rounded
/// up.
pub open spec fn fee_of(tokens: nat, bps: nat) -> nat {
    (tokens * bps + 9999) / 10000
}

/// The larger of two naturals.
pub open spec fn larger(a: nat, b: nat) -> nat {
    if a >= b {
        a
    } else {
        b
    }
}

/// The raw value of the tokens that belong to the depositors: what is
/// owed and what is in the vault, less the fees not yet collected. It
/// has none where the sum does not fit or the fees exceed it.
pub open spec fn depositors_value(state: ReserveState, vault_total: u64) -> Option<nat> {
    let gross = state.outstanding_debt@ + vault_total * one();
    let fees = state.uncollected_fees@ + state.uncollected_protocol_fees@;
    if gross > max_raw() || fees > gross {
        None
    } else {
        Some((gross - fees) as nat)
    }
}

/// The raw rate at which `supply` notes stand for the raw value
/// `value`: at least one raw unit of value and one note are counted. It
/// has none where the scaled value does not fit.
pub open spec fn exchange_rate_of(value: nat, supply: u64) -> Option<nat> {
    let total = larger(one(), value);
    let notes = larger(1, supply as nat) * one();
    if total * one() > max_raw() {
        None
    } else {
        Some(total * one() / notes)
    }
}

/// The tokens that deposit notes are worth, from the state.
pub open spec fn deposit_rate_spec(
    state: ReserveState,
    vault_total: u64,
    mint_supply: u64,
) -> Option<nat> {
    match depositors_value(state, vault_total) {
        None => None,
        Some(value) => exchange_rate_of(value, mint_supply),
    }
}

/// The notes that fees of the raw value `fees` buy at the raw exchange
/// rate `rate`, rounded down; none where they cannot be computed or do
/// not fit in 64 bits.
pub open spec fn fee_notes_of(fees: nat, rate: nat) -> Option<u64> {
    if rate == 0 || fees * one() > max_raw() || fees * one() / rate / one() > u64::MAX {
        None
    } else {
        Some((fees * one() / rate / one()) as u64)
    }
}

/// Whether fees of the raw value `fees` have reached the threshold of
/// `threshold` tokens, from which on they are collected.
pub open spec fn fees_due(threshold: u64, fees: nat) -> bool {
    threshold * one() <= fees
}

/// The state once the fees, where they are due, were collected as
/// `notes` deposit notes.
pub open spec fn after_collection(before: ReserveState, threshold: u64, notes: u64) -> ReserveState {
    if fees_due(threshold, before.uncollected_fees@) {
        ReserveState {
            uncollected_fees: Number::from_raw(0),
            total_deposit_notes: (before.total_deposit_notes + notes) as u64,
            ..before
        }
    } else {
        before
    }
}

/// The state once the protocol's fees, where they are due, were
/// collected as `notes` deposit notes.
pub open spec fn after_protocol_collection(
    before: ReserveState,
    threshold: u64,
    notes: u64,
) -> ReserveState {
    if fees_due(threshold, before.uncollected_protocol_fees@) {
        ReserveState {
            uncollected_protocol_fees: Number::from_raw(0),
            total_deposit_notes: (before.total_deposit_notes + notes) as u64,
            ..before
        }
    } else {
        before
    }
}

/// The two ways of rounding a product with a rate in hundredths of a
/// percent agree.
proof fn lemma_fee_rounding(k: nat)
    ensures
        (k * 100_000_000_000 + one() - 1) as nat / one() == (k + 9999) / 10000,
{
}

/// The fee on `tokens` at `bps`, or `None` where it does not fit.
fn checked_fee(tokens: u64, bps: u16) -> (r: Option<u64>)
    ensures
        fee_of(tokens as nat, bps as nat) <= u64::MAX ==> r == Some(
            fee_of(tokens as nat, bps as nat) as u64,
        ),
        fee_of(tokens as nat, bps as nat) > u64::MAX ==> r is None,
{
    let rate = Number::from_bps(bps);
    proof {
        lemma_pow10_values();
        assert(rate@ * tokens <= max_raw()) by (nonlinear_arith)
            requires
                rate@ == bps * 100_000_000_000,
                bps <= 65535,
                tokens <= u64::MAX,
                max_raw() == 0xffff_ffff_ffff_ffff_ffff_ffff_ffff_ffff_ffff_ffff_ffff_ffffnat,
        ;
        assert(rate@ * tokens == (tokens * bps) * 100_000_000_000) by (nonlinear_arith)
            requires
                rate@ == bps * 100_000_000_000,
        ;
        assert(rate@ * tokens + one() - 1 <= max_raw()) by (nonlinear_arith)
            requires
                rate@ == bps * 100_000_000_000,
                bps <= 65535,
                tokens <= u64::MAX,
                one() == 1_000_000_000_000_000,
                max_raw() == 0xffff_ffff_ffff_ffff_ffff_ffff_ffff_ffff_ffff_ffff_ffff_ffffnat,
        ;
        lemma_fee_rounding((tokens * bps) as nat);
    }
    rate.mul_int(tokens).checked_as_u64_ceil(0)
}

/// The notes that the fees buy at the exchange rate, rounded down.
fn fee_notes(fees: Number, exchange_rate: Number) -> (r: Option<u64>)
    ensures
        r == fee_notes_of(fees@, exchange_rate@),
{
    match fees.checked_div(exchange_rate) {
        None => None,
        Some(notes) => {
            proof {
                lemma_pow10_values();
            }
            notes.checked_as_u64(0)
        },
    }
}

/// The rate at which `mint_supply` notes stand for `value`.
fn exchange_rate(value: Number, mint_supply: u64) -> (r: Result<Number, ErrorCode>)
    ensures
        match exchange_rate_of(value@, mint_supply) {
            Some(rate) => r is Ok && r->Ok_0@ == rate,
            None => r == Err::<Number, ErrorCode>(ErrorCode::Overflow),
        },
{
    let supply = Number::from_u64(if mint_supply > 1 {
        mint_supply
    } else {
        1
    });
    let total_value = Number::one().max(value);
    overflow_unless(total_value.checked_div(supply))
}

impl ReserveState {
    /// A state in which nothing is held or owed, accrued until
    /// `timestamp`.
    pub fn new(timestamp: i64) -> (r: ReserveState)
        ensures
            r.accrued_until == timestamp,
            r.outstanding_debt@ == 0,
            r.uncollected_fees@ == 0,
            r.uncollected_protocol_fees@ == 0,
            r.total_deposits == 0,
            r.total_deposit_notes == 0,
            r.total_loan_notes == 0,
    {
        ReserveState {
            accrued_until: timestamp,
            outstanding_debt: Number::zero(),
            uncollected_fees: Number::zero(),
            uncollected_protocol_fees: Number::zero(),
            total_deposits: 0,
            total_deposit_notes: 0,
            total_loan_notes: 0,
        }
    }
}

impl Reserve {
    /// The state held, fresh or not.
    pub open spec fn state_spec(&self) -> ReserveState {
        self.state.stale_value()
    }

    /// Whether `other` is this reserve with another state.
    pub open spec fn same_but_state(&self, other: &Reserve) -> bool {
        *other == (Reserve { state: other.state, ..*self })
    }

    /// Whether `other` is this reserve with a state that holds another
    /// value and is as fresh as it was.
    pub open spec fn same_but_state_value(&self, other: &Reserve) -> bool {
        &&& self.same_but_state(other)
        &&& other.state.as_of() == self.state.as_of()
        &&& other.state.is_invalidated() == self.state.is_invalidated()
    }

    /// Starts the reserve's state anew: nothing held or owed, interest
    /// accrued until `timestamp`, fresh as of `slot`.
    pub fn init(&mut self, timestamp: i64, slot: u64)
        ensures
            old(self).same_but_state(final(self)),
            final(self).state.is_fresh(slot),
            final(self).state.as_of() == slot,
            final(self).state_spec().accrued_until == timestamp,
            final(self).state_spec().outstanding_debt@ == 0,
            final(self).state_spec().uncollected_fees@ == 0,
            final(self).state_spec().uncollected_protocol_fees@ == 0,
            final(self).state_spec().total_deposits == 0,
            final(self).state_spec().total_deposit_notes == 0,
            final(self).state_spec().total_loan_notes == 0,
    {
        self.state = Cache::new(ReserveState::new(timestamp), slot);
    }

    /// The tokens in the vault.
    pub fn total_deposits(&self) -> (r: u64)
        ensures
            r == self.state_spec().total_deposits,
    {
        self.state.get_stale().total_deposits
    }

    /// The deposit notes in existence.
    pub fn total_deposit_notes(&self) -> (r: u64)
        ensures
            r == self.state_spec().total_deposit_notes,
    {
        self.state.get_stale().total_deposit_notes
    }

    /// The loan notes in existence.
    pub fn total_loan_notes(&self) -> (r: u64)
        ensures
            r == self.state_spec().total_loan_notes,
    {
        self.state.get_stale().total_loan_notes
    }

    /// The tokens owed by the borrowers, which the caller knows to be
    /// fresh at `current_slot`.
    pub fn unwrap_outstanding_debt(&self, current_slot: u64) -> (r: Number)
        requires
            self.state.is_fresh(current_slot),
        ensures
            r == self.state_spec().outstanding_debt,
    {
        self.state.expect(current_slot).outstanding_debt
    }

    /// The number that stands for `value` of the token's smallest units.
    pub fn amount(&self, value: u64) -> (r: Number)
        requires
            exponent_ok(self.exponent as int),
        ensures
            r@ == raw_of_decimal(value as nat, self.exponent as int),
    {
        Number::from_decimal(value as u128, self.exponent)
    }

    /// As `amount`, or `None` where the reserve's exponent is not one
    /// that the conversions accept.
    pub fn checked_amount(&self, value: u64) -> (r: Option<Number>)
        ensures
            exponent_ok(self.exponent as int) ==> r is Some && r->0@ == raw_of_decimal(
                value as nat,
                self.exponent as int,
            ),
            !exponent_ok(self.exponent as int) ==> r is None,
    {
        if self.exponent < -31 || self.exponent > 1 {
            None
        } else {
            Some(Number::from_decimal(value as u128, self.exponent))
        }
    }

    /// The fee on a new loan of `token_amount` tokens, rounded up.
    pub fn borrow_fee(&self, token_amount: u64) -> (r: u64)
        requires
            fee_of(token_amount as nat, self.config.loan_origination_fee as nat) <= u64::MAX,
        ensures
            r == fee_of(token_amount as nat, self.config.loan_origination_fee as nat),
    {
        checked_fee(token_amount, self.config.loan_origination_fee).unwrap()
    }

    /// The protocol's fee on a new loan of `token_amount` tokens,
    /// rounded up.
    pub fn protocol_fee(&self, token_amount: u64) -> (r: u64)
        requires
            fee_of(token_amount as nat, self.config.protocol_fee_rate as nat) <= u64::MAX,
        ensures
            r == fee_of(token_amount as nat, self.config.protocol_fee_rate as nat),
    {
        checked_fee(token_amount, self.config.protocol_fee_rate).unwrap()
    }

    /// As `borrow_fee`, with `Overflow` where the fee does not fit.
    pub fn checked_borrow_fee(&self, token_amount: u64) -> (r: Result<u64, ErrorCode>)
        ensures
            fee_of(token_amount as nat, self.config.loan_origination_fee as nat) <= u64::MAX
                ==> r == Ok::<u64, ErrorCode>(
                fee_of(token_amount as nat, self.config.loan_origination_fee as nat) as u64,
            ),
            fee_of(token_amount as nat, self.config.loan_origination_fee as nat) > u64::MAX
                ==> r == Err::<u64, ErrorCode>(ErrorCode::Overflow),
    {
        overflow_unless(checked_fee(token_amount, self.config.loan_origination_fee))
    }

    /// As `protocol_fee`, with `Overflow` where the fee does not fit.
    pub fn checked_protocol_fee(&self, token_amount: u64) -> (r: Result<u64, ErrorCode>)
        ensures
            fee_of(token_amount as nat, self.config.protocol_fee_rate as nat) <= u64::MAX ==> r
                == Ok::<u64, ErrorCode>(
                fee_of(token_amount as nat, self.config.protocol_fee_rate as nat) as u64,
            ),
            fee_of(token_amount as nat, self.config.protocol_fee_rate as nat) > u64::MAX ==> r
                == Err::<u64, ErrorCode>(ErrorCode::Overflow),
    {
        overflow_unless(checked_fee(token_amount, self.config.protocol_fee_rate))
    }

    /// Records tokens deposited and the notes minted for them.
    pub fn deposit(&mut self, token_amount: u64, note_amount: u64)
        requires
            old(self).state_spec().total_deposits + token_amount <= u64::MAX,
            old(self).state_spec().total_deposit_notes + note_amount <= u64::MAX,
        ensures
            old(self).same_but_state_value(final(self)),
            final(self).state_spec() == (ReserveState {
                total_deposits: (old(self).state_spec().total_deposits + token_amount) as u64,
                total_deposit_notes: (old(self).state_spec().total_deposit_notes
                    + note_amount) as u64,
                ..old(self).state_spec()
            }),
    {
        let state = *self.state.get_stale();
        self.state.set_stale(
            ReserveState {
                total_deposits: state.total_deposits + token_amount,
                total_deposit_notes: state.total_deposit_notes + note_amount,
                ..state
            },
        );
    }

    /// Records tokens withdrawn and the notes burned for them.
    pub fn withdraw(&mut self, token_amount: u64, note_amount: u64)
        requires
            token_amount <= old(self).state_spec().total_deposits,
            note_amount <= old(self).state_spec().total_deposit_notes,
        ensures
            old(self).same_but_state_value(final(self)),
            final(self).state_spec() == (ReserveState {
                total_deposits: (old(self).state_spec().total_deposits - token_amount) as u64,
                total_deposit_notes: (old(self).state_spec().total_deposit_notes
                    - note_amount) as u64,
                ..old(self).state_spec()
            }),
    {
        let state = *self.state.get_stale();
        self.state.set_stale(
            ReserveState {
                total_deposits: state.total_deposits - token_amount,
                total_deposit_notes: state.total_deposit_notes - note_amount,
                ..state
            },
        );
    }

    /// Whether a loan of `token_amount` tokens with these notes and fees
    /// can be recorded at `current_slot`.
    pub open spec fn can_borrow(
        &self,
        current_slot: u64,
        token_amount: u64,
        note_amount: u64,
        fees: u64,
        protocol_fees: u64,
    ) -> bool {
        let state = self.state_spec();
        &&& self.state.is_fresh(current_slot)
        &&& token_amount <= state.total_deposits
        &&& state.total_loan_notes + note_amount <= u64::MAX
        &&& state.outstanding_debt@ + (token_amount + fees + protocol_fees) * one() <= max_raw()
        &&& state.uncollected_fees@ + fees * one() <= max_raw()
        &&& state.uncollected_protocol_fees@ + protocol_fees * one() <= max_raw()
    }

    /// Whether `after` is the state once a loan was recorded on `before`.
    pub open spec fn borrowed(
        before: ReserveState,
        after: ReserveState,
        token_amount: u64,
        note_amount: u64,
        fees: u64,
        protocol_fees: u64,
    ) -> bool {
        &&& after.accrued_until == before.accrued_until
        &&& after.total_deposit_notes == before.total_deposit_notes
        &&& after.total_deposits == before.total_deposits - token_amount
        &&& after.total_loan_notes == before.total_loan_notes + note_amount
        &&& after.outstanding_debt@ == before.outstanding_debt@ + (token_amount + fees
            + protocol_fees) * one()
        &&& after.uncollected_fees@ == before.uncollected_fees@ + fees * one()
        &&& after.uncollected_protocol_fees@ == before.uncollected_protocol_fees@ + protocol_fees
            * one()
    }

    /// Records a loan: the tokens leave the vault, and the tokens and
    /// the fees are owed.
    pub fn borrow(
        &mut self,
        current_slot: u64,
        token_amount: u64,
        note_amount: u64,
        fees: u64,
        protocol_fees: u64,
    )
        requires
            old(self).can_borrow(current_slot, token_amount, note_amount, fees, protocol_fees),
        ensures
            old(self).same_but_state_value(final(self)),
            Self::borrowed(
                old(self).state_spec(),
                final(self).state_spec(),
                token_amount,
                note_amount,
                fees,
                protocol_fees,
            ),
    {
        let state = *self.state.expect(current_slot);
        proof {
            assert(token_amount * one() + fees * one() + protocol_fees * one() == (token_amount
                + fees + protocol_fees) * one()) by (nonlinear_arith);
        }
        let owed = Number::from_u64(token_amount).add(Number::from_u64(fees)).add(
            Number::from_u64(protocol_fees),
        );
        self.state.set_stale(
            ReserveState {
                outstanding_debt: state.outstanding_debt.add(owed),
                uncollected_fees: state.uncollected_fees.add(Number::from_u64(fees)),
                uncollected_protocol_fees: state.uncollected_protocol_fees.add(
                    Number::from_u64(protocol_fees),
                ),
                total_loan_notes: state.total_loan_notes + note_amount,
                total_deposits: state.total_deposits - token_amount,
                ..state
            },
        );
    }

    /// Whether `after` is the state once a repayment was recorded on
    /// `before`: what is owed and the loan notes go down, to nothing at
    /// the least, and the tokens go to the vault.
    pub open spec fn repaid(
        before: ReserveState,
        after: ReserveState,
        token_amount: u64,
        note_amount: u64,
    ) -> bool {
        &&& after.accrued_until == before.accrued_until
        &&& after.total_deposit_notes == before.total_deposit_notes
        &&& after.uncollected_fees == before.uncollected_fees
        &&& after.uncollected_protocol_fees == before.uncollected_protocol_fees
        &&& after.total_deposits == before.total_deposits + token_amount
        &&& after.total_loan_notes == if note_amount <= before.total_loan_notes {
            before.total_loan_notes - note_amount
        } else {
            0
        }
        &&& after.outstanding_debt@ == if token_amount * one() <= before.outstanding_debt@ {
            before.outstanding_debt@ - token_amount * one()
        } else {
            0
        }
    }

    /// Records a repayment.
    pub fn repay(&mut self, current_slot: u64, token_amount: u64, note_amount: u64)
        requires
            old(self).state.is_fresh(current_slot),
            old(self).state_spec().total_deposits + token_amount <= u64::MAX,
        ensures
            old(self).same_but_state_value(final(self)),
            Self::repaid(
                old(self).state_spec(),
                final(self).state_spec(),
                token_amount,
                note_amount,
            ),
    {
        let state = *self.state.expect(current_slot);
        self.state.set_stale(
            ReserveState {
                outstanding_debt: state.outstanding_debt.saturating_sub(
                    Number::from_u64(token_amount),
                ),
                total_deposits: state.total_deposits + token_amount,
                total_loan_notes: state.total_loan_notes.saturating_sub(note_amount),
                ..state
            },
        );
    }

    /// What recording a deposit gives: `Overflow` where the tokens or
    /// the notes cannot be counted.
    pub open spec fn deposit_result(&self, token_amount: u64, note_amount: u64) -> Result<
        (),
        ErrorCode,
    > {
        if self.state_spec().total_deposits + token_amount > u64::MAX
            || self.state_spec().total_deposit_notes + note_amount > u64::MAX {
            Err(ErrorCode::Overflow)
        } else {
            Ok(())
        }
    }

    /// As `deposit`, with `Overflow` where the tokens or the notes
    /// cannot be counted; then nothing changes.
    pub fn try_deposit(&mut self, token_amount: u64, note_amount: u64) -> (r: Result<
        (),
        ErrorCode,
    >)
        ensures
            r == old(self).deposit_result(token_amount, note_amount),
            r is Err ==> *final(self) == *old(self),
            r is Ok ==> old(self).same_but_state_value(final(self)),
            r is Ok ==> final(self).state_spec() == (
                ReserveState {
                    total_deposits: (old(self).state_spec().total_deposits + token_amount) as u64,
                    total_deposit_notes: (
                        old(self).state_spec().total_deposit_notes + note_amount
                    ) as u64,
                    ..old(self).state_spec()
                }
            ),
    {
        let state = self.state.get_stale();
        if state.total_deposits > u64::MAX - token_amount || state.total_deposit_notes > u64::MAX
            - note_amount {
            return Err(ErrorCode::Overflow);
        }
        self.deposit(token_amount, note_amount);
        Ok(())
    }

    /// What recording a loan gives: `StaleData` where the state is not
    /// fresh at `current_slot`, `Overflow` where the vault holds fewer
    /// tokens or a sum does not fit.
    pub open spec fn borrow_result(
        &self,
        current_slot: u64,
        token_amount: u64,
        note_amount: u64,
        fees: u64,
        protocol_fees: u64,
    ) -> Result<(), ErrorCode> {
        if !self.state.is_fresh(current_slot) {
            Err(ErrorCode::StaleData)
        } else if !self.can_borrow(current_slot, token_amount, note_amount, fees, protocol_fees) {
            Err(ErrorCode::Overflow)
        } else {
            Ok(())
        }
    }

    /// As `borrow`, with an error where the loan cannot be recorded;
    /// then nothing changes.
    pub fn try_borrow(
        &mut self,
        current_slot: u64,
        token_amount: u64,
        note_amount: u64,
        fees: u64,
        protocol_fees: u64,
    ) -> (r: Result<(), ErrorCode>)
        ensures
            r == old(self).borrow_result(
                current_slot,
                token_amount,
                note_amount,
                fees,
                protocol_fees,
            ),
            r is Err ==> *final(self) == *old(self),
            r is Ok ==> old(self).same_but_state_value(final(self)),
            r is Ok ==> Self::borrowed(
                old(self).state_spec(),
                final(self).state_spec(),
                token_amount,
                note_amount,
                fees,
                protocol_fees,
            ),
    {
        if !self.state.fresh_at(current_slot) {
            return Err(ErrorCode::StaleData);
        }
        let state = *self.state.get_stale();
        if token_amount > state.total_deposits || state.total_loan_notes > u64::MAX
            - note_amount {
            return Err(ErrorCode::Overflow);
        }
        proof {
            assert(token_amount * one() + fees * one() + protocol_fees * one() == (token_amount
                + fees + protocol_fees) * one()) by (nonlinear_arith);
            state.outstanding_debt.lemma_bounded();
        }
        let owed = match Number::from_u64(token_amount).checked_add(Number::from_u64(fees)) {
            None => {
                return Err(ErrorCode::Overflow);
            },
            Some(v) => match v.checked_add(Number::from_u64(protocol_fees)) {
                None => {
                    return Err(ErrorCode::Overflow);
                },
                Some(w) => w,
            },
        };
        if state.outstanding_debt.checked_add(owed).is_none()
            || state.uncollected_fees.checked_add(Number::from_u64(fees)).is_none()
            || state.uncollected_protocol_fees.checked_add(
            Number::from_u64(protocol_fees),
        ).is_none() {
            return Err(ErrorCode::Overflow);
        }
        self.borrow(current_slot, token_amount, note_amount, fees, protocol_fees);
        Ok(())
    }

    /// What recording a repayment gives: `StaleData` where the state is
    /// not fresh at `current_slot`, `Overflow` where the tokens in the
    /// vault cannot be counted.
    pub open spec fn repay_result(&self, current_slot: u64, token_amount: u64) -> Result<
        (),
        ErrorCode,
    > {
        if !self.state.is_fresh(current_slot) {
            Err(ErrorCode::StaleData)
        } else if self.state_spec().total_deposits + token_amount > u64::MAX {
            Err(ErrorCode::Overflow)
        } else {
            Ok(())
        }
    }

    /// As `repay`, with an error where the repayment cannot be
    /// recorded; then nothing changes.
    pub fn try_repay(&mut self, current_slot: u64, token_amount: u64, note_amount: u64) -> (r:
        Result<(), ErrorCode>)
        ensures
            r == old(self).repay_result(current_slot, token_amount),
            r is Err ==> *final(self) == *old(self),
            r is Ok ==> old(self).same_but_state_value(final(self)),
            r is Ok ==> Self::repaid(
                old(self).state_spec(),
                final(self).state_spec(),
                token_amount,
                note_amount,
            ),
    {
        if !self.state.fresh_at(current_slot) {
            return Err(ErrorCode::StaleData);
        }
        if self.state.get_stale().total_deposits > u64::MAX - token_amount {
            return Err(ErrorCode::Overflow);
        }
        self.repay(current_slot, token_amount, note_amount);
        Ok(())
    }

    /// The tokens that one deposit note is worth, or `Overflow` where
    /// that cannot be computed.
    pub fn deposit_note_exchange_rate(
        &self,
        current_slot: u64,
        vault_total: u64,
        mint_supply: u64,
    ) -> (r: Result<Number, ErrorCode>)
        requires
            self.state.is_fresh(current_slot),
        ensures
            match deposit_rate_spec(self.state_spec(), vault_total, mint_supply) {
                Some(rate) => r is Ok && r->Ok_0@ == rate,
                None => r == Err::<Number, ErrorCode>(ErrorCode::Overflow),
            },
    {
        let state = self.state.expect(current_slot);
        let gross = match state.outstanding_debt.checked_add(Number::from_u64(vault_total)) {
            None => {
                return Err(ErrorCode::Overflow);
            },
            Some(v) => v,
        };
        proof {
            gross.lemma_bounded();
            state.uncollected_fees.lemma_bounded();
            state.uncollected_protocol_fees.lemma_bounded();
        }
        let fees = match state.uncollected_fees.checked_add(state.uncollected_protocol_fees) {
            None => {
                return Err(ErrorCode::Overflow);
            },
            Some(v) => v,
        };
        match gross.checked_sub(fees) {
            None => Err(ErrorCode::Overflow),
            Some(value) => exchange_rate(value, mint_supply),
        }
    }

    /// The tokens that one loan note is worth, or `Overflow` where that
    /// cannot be computed.
    pub fn loan_note_exchange_rate(&self, current_slot: u64, mint_supply: u64) -> (r: Result<
        Number,
        ErrorCode,
    >)
        requires
            self.state.is_fresh(current_slot),
        ensures
            match exchange_rate_of(self.state_spec().outstanding_debt@, mint_supply) {
                Some(rate) => r is Ok && r->Ok_0@ == rate,
                None => r == Err::<Number, ErrorCode>(ErrorCode::Overflow),
            },
    {
        exchange_rate(self.state.expect(current_slot).outstanding_debt, mint_supply)
    }

    /// What collecting the fees gives: nothing, and no change, while
    /// they are under the threshold; else the notes that they buy at
    /// `exchange_rate`; `Overflow` where the notes cannot be computed or
    /// counted.
    pub open spec fn fee_collection(
        threshold: u64,
        fees: nat,
        notes_before: u64,
        rate: nat,
    ) -> Result<u64, ErrorCode> {
        if !fees_due(threshold, fees) {
            Ok(0)
        } else {
            match fee_notes_of(fees, rate) {
                None => Err(ErrorCode::Overflow),
                Some(notes) => if notes_before + notes > u64::MAX {
                    Err(ErrorCode::Overflow)
                } else {
                    Ok(notes)
                },
            }
        }
    }

    /// Turns the fees not yet collected into deposit notes to mint.
    pub fn collect_accrued_fees(&mut self, current_slot: u64, exchange_rate: Number) -> (r: Result<
        u64,
        ErrorCode,
    >)
        requires
            old(self).state.is_fresh(current_slot),
        ensures
            old(self).same_but_state_value(final(self)),
            r == Self::fee_collection(
                old(self).config.manage_fee_collection_threshold,
                old(self).state_spec().uncollected_fees@,
                old(self).state_spec().total_deposit_notes,
                exchange_rate@,
            ),
            r is Err ==> final(self).state_spec() == old(self).state_spec(),
            r is Ok ==> final(self).state_spec() == after_collection(
                old(self).state_spec(),
                old(self).config.manage_fee_collection_threshold,
                r->Ok_0,
            ),
    {
        let threshold = Number::from_u64(self.config.manage_fee_collection_threshold);
        let state = *self.state.expect(current_slot);
        if state.uncollected_fees.lt(&threshold) {
            return Ok(0);
        }
        let fee_notes = match fee_notes(state.uncollected_fees, exchange_rate) {
            None => {
                return Err(ErrorCode::Overflow);
            },
            Some(n) => n,
        };
        let total = match state.total_deposit_notes.checked_add(fee_notes) {
            None => {
                return Err(ErrorCode::Overflow);
            },
            Some(n) => n,
        };
        self.state.set_stale(
            ReserveState { uncollected_fees: Number::zero(), total_deposit_notes: total, ..state },
        );
        proof {
            Number::lemma_from_raw(0);
        }
        Ok(fee_notes)
    }

    /// Turns the protocol's fees not yet collected into deposit notes to
    /// mint.
    pub fn collect_accrued_protocol_fees(&mut self, current_slot: u64, exchange_rate: Number) -> (r:
        Result<u64, ErrorCode>)
        requires
            old(self).state.is_fresh(current_slot),
        ensures
            old(self).same_but_state_value(final(self)),
            r == Self::fee_collection(
                old(self).config.manage_fee_collection_threshold,
                old(self).state_spec().uncollected_protocol_fees@,
                old(self).state_spec().total_deposit_notes,
                exchange_rate@,
            ),
            r is Err ==> final(self).state_spec() == old(self).state_spec(),
            r is Ok ==> final(self).state_spec() == after_protocol_collection(
                old(self).state_spec(),
                old(self).config.manage_fee_collection_threshold,
                r->Ok_0,
            ),
    {
        let threshold = Number::from_u64(self.config.manage_fee_collection_threshold);
        let state = *self.state.expect(current_slot);
        if state.uncollected_protocol_fees.lt(&threshold) {
            return Ok(0);
        }
        let fee_notes = match fee_notes(state.uncollected_protocol_fees, exchange_rate) {
            None => {
                return Err(ErrorCode::Overflow);
            },
            Some(n) => n,
        };
        let total = match state.total_deposit_notes.checked_add(fee_notes) {
            None => {
                return Err(ErrorCode::Overflow);
            },
            Some(n) => n,
        };
        self.state.set_stale(
            ReserveState {
                uncollected_protocol_fees: Number::zero(),
                total_deposit_notes: total,
                ..state
            },
        );
        proof {
            Number::lemma_from_raw(0);
        }
        Ok(fee_notes)
    }
}

} // verus!
