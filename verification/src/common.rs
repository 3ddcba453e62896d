//! Amounts of value and the units they are counted in.

use vstd::prelude::*;
use crate::errors::ErrorCode;
use crate::market::{
    notes_of_tokens, notes_of_tokens_defined, tokens_of_notes, tokens_of_notes_defined,
    CachedReserveInfo,
};

verus! {

/// The units of some amount of value.
#[derive(Clone, Copy, Debug, PartialEq, Eq, Structural)]
pub enum AmountUnits {
    Tokens,
    DepositNotes,
    LoanNotes,
}

/// An amount of some value, in tokens or in notes.
#[derive(Clone, Copy, Debug, PartialEq, Eq, Structural)]
pub struct Amount {
    pub units: AmountUnits,
    pub value: u64,
}

/// Which way a conversion rounds what does not come out whole.
#[derive(Clone, Copy, Debug, PartialEq, Eq, Structural)]
pub enum Rounding {
    Up,
    Down,
}

impl Amount {
    /// What the amount is in tokens at the reserve's exchange rates.
    pub open spec fn tokens_spec(
        &self,
        reserve_info: &CachedReserveInfo,
        rounding: Rounding,
    ) -> nat {
        match self.units {
            AmountUnits::Tokens => self.value as nat,
            AmountUnits::DepositNotes => tokens_of_notes(
                self.value as nat,
                reserve_info.deposit_note_exchange_rate@,
                rounding,
            ),
            AmountUnits::LoanNotes => tokens_of_notes(
                self.value as nat,
                reserve_info.loan_note_exchange_rate@,
                rounding,
            ),
        }
    }

    /// Whether the amount in tokens can be computed and fits in 64 bits.
    pub open spec fn tokens_defined(
        &self,
        reserve_info: &CachedReserveInfo,
        rounding: Rounding,
    ) -> bool {
        match self.units {
            AmountUnits::Tokens => true,
            AmountUnits::DepositNotes => tokens_of_notes_defined(
                self.value as nat,
                reserve_info.deposit_note_exchange_rate@,
                rounding,
            ),
            AmountUnits::LoanNotes => tokens_of_notes_defined(
                self.value as nat,
                reserve_info.loan_note_exchange_rate@,
                rounding,
            ),
        }
    }

    /// The amount in tokens.
    pub fn as_tokens(&self, reserve_info: &CachedReserveInfo, rounding: Rounding) -> (r: u64)
        requires
            self.tokens_defined(reserve_info, rounding),
        ensures
            r == self.tokens_spec(reserve_info, rounding),
    {
        match self.units {
            AmountUnits::Tokens => self.value,
            AmountUnits::DepositNotes => reserve_info.deposit_notes_to_tokens(self.value, rounding),
            AmountUnits::LoanNotes => reserve_info.loan_notes_to_tokens(self.value, rounding),
        }
    }

    /// The amount in tokens, or `Overflow` where it cannot be computed
    /// or does not fit in 64 bits.
    pub fn checked_as_tokens(&self, reserve_info: &CachedReserveInfo, rounding: Rounding) -> (r:
        Result<u64, ErrorCode>)
        ensures
            self.tokens_defined(reserve_info, rounding) ==> r == Ok::<u64, ErrorCode>(
                self.tokens_spec(reserve_info, rounding) as u64,
            ),
            !self.tokens_defined(reserve_info, rounding) ==> r == Err::<u64, ErrorCode>(
                ErrorCode::Overflow,
            ),
    {
        match self.units {
            AmountUnits::Tokens => Ok(self.value),
            AmountUnits::DepositNotes => reserve_info.checked_deposit_notes_to_tokens(
                self.value,
                rounding,
            ),
            AmountUnits::LoanNotes => reserve_info.checked_loan_notes_to_tokens(
                self.value,
                rounding,
            ),
        }
    }

    /// The amount in deposit notes. Loan notes have no value in deposit
    /// notes; for tokens the exchange rate must not be zero and the
    /// notes must fit in 64 bits.
    pub fn as_deposit_notes(&self, reserve_info: &CachedReserveInfo, rounding: Rounding) -> (r:
        Result<u64, ErrorCode>)
        requires
            self.units == AmountUnits::Tokens ==> notes_of_tokens_defined(
                self.value as nat,
                reserve_info.deposit_note_exchange_rate@,
                rounding,
            ),
        ensures
            self.units == AmountUnits::Tokens ==> r == Ok::<u64, ErrorCode>(
                notes_of_tokens(
                    self.value as nat,
                    reserve_info.deposit_note_exchange_rate@,
                    rounding,
                ) as u64,
            ),
            self.units == AmountUnits::DepositNotes ==> r == Ok::<u64, ErrorCode>(self.value),
            self.units == AmountUnits::LoanNotes ==> r == Err::<u64, ErrorCode>(
                ErrorCode::InvalidUnits,
            ),
    {
        match self.units {
            AmountUnits::Tokens => Ok(
                reserve_info.deposit_notes_from_tokens(self.value, rounding),
            ),
            AmountUnits::DepositNotes => Ok(self.value),
            AmountUnits::LoanNotes => Err(ErrorCode::InvalidUnits),
        }
    }

    /// The amount in loan notes. Deposit notes have no value in loan
    /// notes; for tokens the exchange rate must not be zero and the
    /// notes must fit in 64 bits.
    pub fn as_loan_notes(&self, reserve_info: &CachedReserveInfo, rounding: Rounding) -> (r:
        Result<u64, ErrorCode>)
        requires
            self.units == AmountUnits::Tokens ==> notes_of_tokens_defined(
                self.value as nat,
                reserve_info.loan_note_exchange_rate@,
                rounding,
            ),
        ensures
            self.units == AmountUnits::Tokens ==> r == Ok::<u64, ErrorCode>(
                notes_of_tokens(
                    self.value as nat,
                    reserve_info.loan_note_exchange_rate@,
                    rounding,
                ) as u64,
            ),
            self.units == AmountUnits::LoanNotes ==> r == Ok::<u64, ErrorCode>(self.value),
            self.units == AmountUnits::DepositNotes ==> r == Err::<u64, ErrorCode>(
                ErrorCode::InvalidUnits,
            ),
    {
        match self.units {
            AmountUnits::Tokens => Ok(reserve_info.loan_notes_from_tokens(self.value, rounding)),
            AmountUnits::LoanNotes => Ok(self.value),
            AmountUnits::DepositNotes => Err(ErrorCode::InvalidUnits),
        }
    }

    /// As `as_deposit_notes`, with `Overflow` where the notes for an
    /// amount of tokens cannot be computed or do not fit in 64 bits.
    pub fn checked_as_deposit_notes(
        &self,
        reserve_info: &CachedReserveInfo,
        rounding: Rounding,
    ) -> (r: Result<u64, ErrorCode>)
        ensures
            r == checked_notes_spec(
                *self,
                AmountUnits::DepositNotes,
                reserve_info.deposit_note_exchange_rate@,
                rounding,
            ),
    {
        match self.units {
            AmountUnits::Tokens => reserve_info.checked_deposit_notes_from_tokens(
                self.value,
                rounding,
            ),
            AmountUnits::DepositNotes => Ok(self.value),
            AmountUnits::LoanNotes => Err(ErrorCode::InvalidUnits),
        }
    }

    /// As `as_loan_notes`, with `Overflow` where the notes for an amount
    /// of tokens cannot be computed or do not fit in 64 bits.
    pub fn checked_as_loan_notes(
        &self,
        reserve_info: &CachedReserveInfo,
        rounding: Rounding,
    ) -> (r: Result<u64, ErrorCode>)
        ensures
            r == checked_notes_spec(
                *self,
                AmountUnits::LoanNotes,
                reserve_info.loan_note_exchange_rate@,
                rounding,
            ),
    {
        match self.units {
            AmountUnits::Tokens => reserve_info.checked_loan_notes_from_tokens(
                self.value,
                rounding,
            ),
            AmountUnits::LoanNotes => Ok(self.value),
            AmountUnits::DepositNotes => Err(ErrorCode::InvalidUnits),
        }
    }

    /// An amount of `value` tokens.
    pub fn from_tokens(value: u64) -> (r: Amount)
        ensures
            r == (Amount { units: AmountUnits::Tokens, value }),
    {
        Amount { units: AmountUnits::Tokens, value }
    }

    /// An amount of `value` deposit notes.
    pub fn from_deposit_notes(value: u64) -> (r: Amount)
        ensures
            r == (Amount { units: AmountUnits::DepositNotes, value }),
    {
        Amount { units: AmountUnits::DepositNotes, value }
    }

    /// An amount of `value` loan notes.
    pub fn from_loan_notes(value: u64) -> (r: Amount)
        ensures
            r == (Amount { units: AmountUnits::LoanNotes, value }),
    {
        Amount { units: AmountUnits::LoanNotes, value }
    }
}

/// What an amount is in the notes of kind `target` at the exchange rate
/// `rate`: itself where it is counted in those notes, the notes that
/// its tokens buy, and no value where it is counted in the other notes.
pub open spec fn checked_notes_spec(
    amount: Amount,
    target: AmountUnits,
    rate: nat,
    rounding: Rounding,
) -> Result<u64, ErrorCode> {
    if amount.units == target {
        Ok(amount.value)
    } else if amount.units == AmountUnits::Tokens {
        if notes_of_tokens_defined(amount.value as nat, rate, rounding) {
            Ok(notes_of_tokens(amount.value as nat, rate, rounding) as u64)
        } else {
            Err(ErrorCode::Overflow)
        }
    } else {
        Err(ErrorCode::InvalidUnits)
    }
}

} // verus!
