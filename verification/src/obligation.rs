//! A borrower's obligation: the collateral posted, the loans taken and
//! whether the one still covers the other.

use vstd::prelude::*;
use crate::cache::Cache;
use crate::errors::ErrorCode;
use crate::keys::StoredPubkey;
use crate::market::{
    snapshot_at, CachedReserveInfo, MarketOracle, MarketReserves, ReserveIndex, ReserveInfo,
};
use crate::number::{max_raw, Number};
use crate::slots::{
    copy_slots, count_occupied, first_free, is_first_free, lemma_first_free_unique,
    lemma_free_slot_exists, lemma_none_occupied, lemma_occupied_bound, lemma_occupied_prefix,
    lemma_occupied_update, lemma_registered_step, occupied, registered,
};
use crate::valuation::{
    covers, health_of, health_result, lemma_error_persists, lemma_limits_step, lemma_no_error_at,
    lemma_priced_ratios_known, lemma_sums_prefix, lemma_valuation_step, limit_of, limits_sum,
    loans_sum, max_ratio, position_value, position_value_defined, pricing_error, ratios_known,
    revalued_health, saturated, slot_active, slot_limit_defined, totals_defined, valuation_result,
};

verus! {

/// The most loan positions that an obligation takes on.
pub const MAX_OBLIGATION_POSITIONS: usize = 11;

/// The number of collateral slots of an obligation.
pub const COLLATERAL_SLOTS: usize = 11;

/// The number of slots for loan positions of an obligation.
pub const LOAN_SLOTS: usize = 16;

/// The side of an obligation that a position stands on.
#[derive(Clone, Copy, Debug, PartialEq, Eq, Structural)]
pub enum Side {
    Loan,
}

/// A loan account registered with an obligation.
#[derive(Clone, Copy, Debug)]
pub struct Position {
    /// The token account that holds the notes.
    pub account: StoredPubkey,
    /// The notes placed in the account, as last recorded.
    pub amount: Number,
    pub side: Side,
    /// The index of the reserve that the notes are from.
    pub reserve_index: ReserveIndex,
}

/// The value of a position.
#[derive(Clone, Copy, Debug)]
pub struct PositionValue {
    /// What the tokens borrowed are worth on the market.
    pub market_value: Number,
    /// The least collateral that the loan asks for.
    pub complementary_limit: Number,
}

/// The loan positions of an obligation. The view is the sequence of the
/// slots.
#[derive(Debug)]
pub struct ObligationSide {
    positions: Vec<Option<Position>>,
}

impl View for ObligationSide {
    type V = Seq<Option<Position>>;

    closed spec fn view(&self) -> Seq<Option<Position>> {
        self.positions@
    }
}

/// What an obligation was last computed to be worth.
#[derive(Clone, Copy, Debug)]
pub struct CalculationCacheInner {
    /// The value of the collateral posted.
    pub collateral_value: Number,
    /// The market value of the loans taken.
    pub loan_value: Number,
}

/// A borrower's collateral and loans in one market.
#[derive(Debug)]
pub struct Obligation {
    /// The market that the obligation is a part of.
    market: StoredPubkey,
    /// The owner of the debt and of the collateral.
    owner: StoredPubkey,
    /// The collateral items posted, one to a slot.
    collateral_nft_mint: Vec<Option<StoredPubkey>>,
    /// The last valuation.
    cached: Cache<CalculationCacheInner>,
    /// The loan positions.
    loans: ObligationSide,
}

/// Whether the slot holds a position of the account.
pub open spec fn slot_has_account(slot: Option<Position>, account: Seq<u8>) -> bool {
    slot matches Some(p) && p.account@ == account
}

/// Whether the slot holds a position in the reserve.
pub open spec fn slot_has_reserve(slot: Option<Position>, index: ReserveIndex) -> bool {
    slot matches Some(p) && p.reserve_index == index
}

/// Whether some slot holds a position of the account.
pub open spec fn holds_account(slots: Seq<Option<Position>>, account: Seq<u8>) -> bool {
    exists|i: int| 0 <= i < slots.len() && slot_has_account(#[trigger] slots[i], account)
}

/// Whether some slot holds a position in the reserve.
pub open spec fn holds_reserve(slots: Seq<Option<Position>>, index: ReserveIndex) -> bool {
    exists|i: int| 0 <= i < slots.len() && slot_has_reserve(#[trigger] slots[i], index)
}

/// Whether `i` is the first slot that holds a position of the account.
pub open spec fn is_first_of_account(
    slots: Seq<Option<Position>>,
    account: Seq<u8>,
    i: int,
) -> bool {
    &&& 0 <= i < slots.len()
    &&& slot_has_account(slots[i], account)
    &&& forall|j: int| 0 <= j < i ==> !slot_has_account(#[trigger] slots[j], account)
}

/// The first slot that holds a position of the account, where there is
/// one.
pub open spec fn account_index(slots: Seq<Option<Position>>, account: Seq<u8>) -> int {
    choose|i: int| is_first_of_account(slots, account, i)
}

/// The notes of the account's position.
pub open spec fn amount_of(slots: Seq<Option<Position>>, account: Seq<u8>) -> nat {
    slots[account_index(slots, account)]->0.amount@
}

/// The slots of a well-formed side: sixteen of them, and no two
/// positions of one account or in one reserve.
pub open spec fn side_wf(slots: Seq<Option<Position>>) -> bool {
    &&& slots.len() == LOAN_SLOTS
    &&& forall|i: int, j: int|
        0 <= i < j < slots.len() && (#[trigger] slots[i]) is Some && (#[trigger] slots[j]) is Some
            ==> slots[i]->0.account@ != slots[j]->0.account@ && slots[i]->0.reserve_index
            != slots[j]->0.reserve_index
}

/// The slots with the position in slot `i` holding `amount`.
pub open spec fn with_amount(slots: Seq<Option<Position>>, i: int, amount: Number) -> Seq<
    Option<Position>,
> {
    slots.update(i, Some(Position { amount, ..slots[i]->0 }))
}

/// The slots with `notes` more on the account's position.
pub open spec fn with_more(slots: Seq<Option<Position>>, account: Seq<u8>, notes: nat) -> Seq<
    Option<Position>,
> {
    with_amount(
        slots,
        account_index(slots, account),
        Number::from_raw(amount_of(slots, account) + notes),
    )
}

/// The slots with `notes` less on the account's position, and with none
/// left where it has fewer.
pub open spec fn with_less(slots: Seq<Option<Position>>, account: Seq<u8>, notes: nat) -> Seq<
    Option<Position>,
> {
    with_amount(
        slots,
        account_index(slots, account),
        Number::from_raw(
            if notes <= amount_of(slots, account) {
                (amount_of(slots, account) - notes) as nat
            } else {
                0
            },
        ),
    )
}

/// Whether some position in another reserve than `index` has notes
/// outstanding.
pub open spec fn owes_elsewhere(slots: Seq<Option<Position>>, index: ReserveIndex) -> bool {
    exists|i: int|
        0 <= i < slots.len() && slot_active(#[trigger] slots[i]) && slots[i]->0.reserve_index
            != index
}

/// Whether `i` is the first slot that holds the key.
pub open spec fn is_first_of_key(slots: Seq<Option<StoredPubkey>>, key: Seq<u8>, i: int) -> bool {
    &&& 0 <= i < slots.len()
    &&& slots[i] matches Some(k) && k@ == key
    &&& forall|j: int| 0 <= j < i ==> !((#[trigger] slots[j]) matches Some(k) && k@ == key)
}

/// The first slot that holds the key, where there is one.
pub open spec fn key_index(slots: Seq<Option<StoredPubkey>>, key: Seq<u8>) -> int {
    choose|i: int| is_first_of_key(slots, key, i)
}

/// Whether some slot holds the key.
pub open spec fn holds_key(slots: Seq<Option<StoredPubkey>>, key: Seq<u8>) -> bool {
    exists|i: int| 0 <= i < slots.len() && ((#[trigger] slots[i]) matches Some(k) && k@ == key)
}

/// What registering a position of the account in the reserve gives.
pub open spec fn side_register_result(
    slots: Seq<Option<Position>>,
    account: Seq<u8>,
    index: ReserveIndex,
) -> Result<(), ErrorCode> {
    if holds_account(slots, account) {
        Err(ErrorCode::DuplicatePosition)
    } else if holds_reserve(slots, index) {
        Err(ErrorCode::ReserveAlreadyRegistered)
    } else if occupied(slots) >= slots.len() {
        Err(ErrorCode::NoFreeObligation)
    } else {
        Ok(())
    }
}

/// What adding `notes` to the account's position gives.
pub open spec fn add_result(slots: Seq<Option<Position>>, account: Seq<u8>, notes: nat) -> Result<
    (),
    ErrorCode,
> {
    if !holds_account(slots, account) {
        Err(ErrorCode::UnregisteredPosition)
    } else if amount_of(slots, account) + notes > max_raw() {
        Err(ErrorCode::Overflow)
    } else {
        Ok(())
    }
}

/// What registering a collateral item gives with `held` items held and
/// `positions` loan positions registered.
pub open spec fn register_nft_result(held: nat, positions: nat) -> Result<(), ErrorCode> {
    if held >= COLLATERAL_SLOTS {
        Err(ErrorCode::CollateralCapacityExceeded)
    } else if positions >= MAX_OBLIGATION_POSITIONS {
        Err(ErrorCode::NoFreeObligation)
    } else if held > 0 {
        Err(ErrorCode::DuplicateCollateral)
    } else {
        Ok(())
    }
}

/// What registering a loan account for the reserve at `index` gives.
pub open spec fn register_loan_result(
    slots: Seq<Option<Position>>,
    account: Seq<u8>,
    index: ReserveIndex,
) -> Result<(), ErrorCode> {
    if occupied(slots) >= MAX_OBLIGATION_POSITIONS {
        Err(ErrorCode::NoFreeObligation)
    } else if holds_account(slots, account) {
        Err(ErrorCode::DuplicatePosition)
    } else if holds_reserve(slots, index) {
        Err(ErrorCode::ReserveAlreadyRegistered)
    } else {
        Ok(())
    }
}

impl Position {
    /// A position without notes.
    pub fn new(side: Side, account: StoredPubkey, reserve_index: ReserveIndex) -> (r: Position)
        ensures
            r == (Position { account, amount: Number::from_raw(0), side, reserve_index }),
            r.amount@ == 0,
    {
        proof {
            Number::lemma_from_raw(0);
        }
        Position { account, side, amount: Number::zero(), reserve_index }
    }

    /// The raw market value of the position at the reserve's snapshot.
    pub open spec fn value_spec(&self, reserve: &CachedReserveInfo) -> nat {
        position_value(self.amount@, reserve.loan_note_exchange_rate@, reserve.price@)
    }

    /// Whether the market value can be computed in 192 bits.
    pub open spec fn value_defined(&self, reserve: &CachedReserveInfo) -> bool {
        position_value_defined(self.amount@, reserve.loan_note_exchange_rate@, reserve.price@)
    }

    /// The tokens that one note of the position is worth.
    fn note_exchange_rate(&self, reserve: &CachedReserveInfo) -> (r: Number)
        ensures
            r == reserve.loan_note_exchange_rate,
    {
        match self.side {
            Side::Loan => reserve.loan_note_exchange_rate,
        }
    }

    /// The least collateral that the position asks for.
    fn complementary_limit(&self, reserve: &CachedReserveInfo, market_value: Number) -> (r:
        Number)
        requires
            market_value@ * reserve.min_collateral_ratio@ <= max_raw(),
        ensures
            r@ == limit_of(market_value@, reserve.min_collateral_ratio@),
    {
        match self.side {
            Side::Loan => market_value.mul(reserve.min_collateral_ratio),
        }
    }

    /// The market value, or `None` where it cannot be computed.
    fn checked_value(&self, reserve: &CachedReserveInfo) -> (r: Option<Number>)
        ensures
            self.value_defined(reserve) ==> r is Some && r->0@ == self.value_spec(reserve),
            !self.value_defined(reserve) ==> r is None,
    {
        match self.amount.checked_mul(self.note_exchange_rate(reserve)) {
            None => None,
            Some(tokens) => tokens.checked_mul(reserve.price),
        }
    }

    /// The market value of the position.
    fn _market_value(&self, reserve: &CachedReserveInfo) -> (r: Number)
        requires
            self.value_defined(reserve),
        ensures
            r@ == self.value_spec(reserve),
    {
        self.amount.mul(self.note_exchange_rate(reserve)).mul(reserve.price)
    }

    /// The market value of the position and the collateral it asks for.
    pub fn market_value(&self, reserve: &CachedReserveInfo) -> (r: PositionValue)
        requires
            self.value_defined(reserve),
            self.value_spec(reserve) * reserve.min_collateral_ratio@ <= max_raw(),
        ensures
            r.market_value@ == self.value_spec(reserve),
            r.complementary_limit@ == limit_of(
                self.value_spec(reserve),
                reserve.min_collateral_ratio@,
            ),
    {
        let market_value = self._market_value(reserve);
        PositionValue {
            market_value,
            complementary_limit: self.complementary_limit(reserve, market_value),
        }
    }
}

/// Whether the slots are those of a well-formed side.
fn slots_well_formed(slots: &Vec<Option<Position>>) -> (r: bool)
    ensures
        r == side_wf(slots@),
{
    if slots.len() != LOAN_SLOTS {
        return false;
    }
    let mut j: usize = 0;
    while j < slots.len()
        invariant
            j <= slots@.len(),
            slots@.len() == LOAN_SLOTS,
            forall|a: int, b: int|
                0 <= a < b < j && (#[trigger] slots@[a]) is Some && (#[trigger] slots@[b]) is Some
                    ==> slots@[a]->0.account@ != slots@[b]->0.account@
                    && slots@[a]->0.reserve_index != slots@[b]->0.reserve_index,
        decreases slots@.len() - j,
    {
        match &slots[j] {
            None => {},
            Some(later) => {
                let mut i: usize = 0;
                while i < j
                    invariant
                        i <= j < slots@.len(),
                        slots@[j as int] == Some(*later),
                        forall|a: int|
                            0 <= a < i && (#[trigger] slots@[a]) is Some ==> slots@[a]->0.account@
                                != later.account@ && slots@[a]->0.reserve_index
                                != later.reserve_index,
                    decreases j - i,
                {
                    match &slots[i] {
                        None => {},
                        Some(earlier) => {
                            if earlier.account.equals(&later.account) || earlier.reserve_index
                                == later.reserve_index {
                                assert(slots@[i as int] is Some && slots@[j as int] is Some);
                                return false;
                            }
                        },
                    }
                    i = i + 1;
                }
            },
        }
        j = j + 1;
    }
    true
}

impl ObligationSide {
    /// Whether the slots are those of a well-formed side.
    pub open spec fn wf(&self) -> bool {
        side_wf(self@)
    }

    /// A side without positions.
    pub fn new() -> (r: ObligationSide)
        ensures
            r.wf(),
            forall|i: int| 0 <= i < r@.len() ==> (#[trigger] r@[i]) is None,
            occupied(r@) == 0,
    {
        let mut positions: Vec<Option<Position>> = Vec::new();
        let mut i: usize = 0;
        while i < LOAN_SLOTS
            invariant
                i <= LOAN_SLOTS,
                positions@.len() == i,
                forall|j: int| 0 <= j < i ==> (#[trigger] positions@[j]) is None,
                occupied(positions@) == 0,
            decreases LOAN_SLOTS - i,
        {
            let ghost before = positions@;
            positions.push(None);
            proof {
                assert(positions@.drop_last() =~= before);
            }
            i = i + 1;
        }
        ObligationSide { positions }
    }

    /// The index of the first slot that holds a position of the account.
    fn find(&self, account: &StoredPubkey) -> (r: Option<usize>)
        ensures
            match r {
                Some(i) => is_first_of_account(self@, account@, i as int),
                None => !holds_account(self@, account@),
            },
    {
        let mut i: usize = 0;
        while i < self.positions.len()
            invariant
                i <= self.positions@.len(),
                forall|j: int|
                    0 <= j < i ==> !slot_has_account(#[trigger] self.positions@[j], account@),
            decreases self.positions@.len() - i,
        {
            match &self.positions[i] {
                Some(p) => {
                    if p.account.equals(account) {
                        return Some(i);
                    }
                },
                None => {},
            }
            i = i + 1;
        }
        None
    }

    /// Whether some slot holds a position in the reserve.
    fn has_reserve(&self, index: ReserveIndex) -> (r: bool)
        ensures
            r == holds_reserve(self@, index),
    {
        let mut i: usize = 0;
        while i < self.positions.len()
            invariant
                i <= self.positions@.len(),
                forall|j: int|
                    0 <= j < i ==> !slot_has_reserve(#[trigger] self.positions@[j], index),
            decreases self.positions@.len() - i,
        {
            match &self.positions[i] {
                Some(p) => {
                    if p.reserve_index == index {
                        return true;
                    }
                },
                None => {},
            }
            i = i + 1;
        }
        false
    }

    /// The index of the first empty slot.
    fn find_free(&self) -> (r: Option<usize>)
        ensures
            match r {
                Some(i) => is_first_free(self@, i as int),
                None => forall|j: int| 0 <= j < self@.len() ==> (#[trigger] self@[j]) is Some,
            },
    {
        let mut i: usize = 0;
        while i < self.positions.len()
            invariant
                i <= self.positions@.len(),
                forall|j: int| 0 <= j < i ==> (#[trigger] self.positions@[j]) is Some,
            decreases self.positions@.len() - i,
        {
            if self.positions[i].is_none() {
                return Some(i);
            }
            i = i + 1;
        }
        None
    }

    /// Registers a position in the first empty slot. An account can be
    /// registered once, and each reserve can have one position.
    pub fn register(&mut self, new: Position) -> (r: Result<(), ErrorCode>)
        requires
            old(self).wf(),
        ensures
            final(self).wf(),
            r == side_register_result(old(self)@, new.account@, new.reserve_index),
            r is Err ==> final(self)@ == old(self)@,
            r is Ok ==> is_first_free(old(self)@, first_free(old(self)@)),
            r is Ok ==> final(self)@ == old(self)@.update(first_free(old(self)@), Some(new)),
            r is Ok ==> occupied(final(self)@) == occupied(old(self)@) + 1,
            r is Ok ==> holds_account(final(self)@, new.account@) && holds_reserve(
                final(self)@,
                new.reserve_index,
            ),
    {
        if self.find(&new.account).is_some() {
            return Err(ErrorCode::DuplicatePosition);
        }
        if self.has_reserve(new.reserve_index) {
            return Err(ErrorCode::ReserveAlreadyRegistered);
        }
        match self.find_free() {
            None => {
                proof {
                    lemma_occupied_bound(self@);
                    if occupied(self@) < LOAN_SLOTS {
                        lemma_free_slot_exists(self@);
                    }
                }
                Err(ErrorCode::NoFreeObligation)
            },
            Some(i) => {
                self.positions.set(i, Some(new));
                proof {
                    let before = old(self)@;
                    let after = self@;
                    lemma_occupied_update(before, i as int, Some(new));
                    lemma_occupied_bound(before.update(i as int, Some(new)));
                    assert forall|a: int, b: int|
                        0 <= a < b < after.len() && (#[trigger] after[a]) is Some && (
                        #[trigger] after[b]) is Some implies after[a]->0.account@
                        != after[b]->0.account@ && after[a]->0.reserve_index
                        != after[b]->0.reserve_index by {
                        if a == i {
                            assert(!slot_has_account(before[b], new.account@));
                            assert(!slot_has_reserve(before[b], new.reserve_index));
                        } else if b == i {
                            assert(!slot_has_account(before[a], new.account@));
                            assert(!slot_has_reserve(before[a], new.reserve_index));
                        } else {
                            assert(before[a] is Some && before[b] is Some);
                        }
                    }
                    lemma_first_free_unique(before, i as int);
                    assert(slot_has_account(after[i as int], new.account@));
                    assert(slot_has_reserve(after[i as int], new.reserve_index));
                }
                Ok(())
            },
        }
    }

    /// Frees the slot that holds the account's position.
    pub fn unregister(&mut self, existing_account: StoredPubkey) -> (r: Result<(), ErrorCode>)
        requires
            old(self).wf(),
        ensures
            final(self).wf(),
            !holds_account(old(self)@, existing_account@) ==> r == Err::<(), ErrorCode>(
                ErrorCode::ObligationPositionNotFound,
            ) && final(self)@ == old(self)@,
            holds_account(old(self)@, existing_account@) ==> r is Ok,
            holds_account(old(self)@, existing_account@) ==> final(self)@ == old(self)@.update(
                account_index(old(self)@, existing_account@),
                None,
            ),
            holds_account(old(self)@, existing_account@) ==> occupied(final(self)@) + 1 == occupied(
                old(self)@,
            ),
    {
        match self.find(&existing_account) {
            None => Err(ErrorCode::ObligationPositionNotFound),
            Some(i) => {
                self.positions.set(i, None);
                proof {
                    let before = old(self)@;
                    lemma_occupied_update(before, i as int, None);
                    lemma_account_index(before, existing_account@, i as int);
                    let after = self@;
                    assert forall|a: int, b: int|
                        0 <= a < b < after.len() && (#[trigger] after[a]) is Some && (
                        #[trigger] after[b]) is Some implies after[a]->0.account@
                        != after[b]->0.account@ && after[a]->0.reserve_index
                        != after[b]->0.reserve_index by {
                        assert(before[a] is Some && before[b] is Some);
                    }
                }
                Ok(())
            },
        }
    }

    /// The slots.
    pub fn slots(&self) -> (r: &Vec<Option<Position>>)
        ensures
            r@ == self@,
    {
        &self.positions
    }

    /// The number of positions registered.
    pub fn position_count(&self) -> (r: usize)
        ensures
            r == occupied(self@),
    {
        let mut count: usize = 0;
        let mut i: usize = 0;
        while i < self.positions.len()
            invariant
                i <= self.positions@.len(),
                count == occupied(self.positions@.take(i as int)),
                count <= i,
            decreases self.positions@.len() - i,
        {
            proof {
                lemma_registered_step(self.positions@, i as int);
            }
            if self.positions[i].is_some() {
                count = count + 1;
            }
            i = i + 1;
        }
        assert(self.positions@.take(i as int) =~= self.positions@);
        count
    }

    /// The positions registered, in the order of their slots.
    pub fn iter(&self) -> (r: Vec<Position>)
        ensures
            r@ == registered(self@),
    {
        let mut out: Vec<Position> = Vec::new();
        let mut i: usize = 0;
        while i < self.positions.len()
            invariant
                i <= self.positions@.len(),
                out@ == registered(self.positions@.take(i as int)),
            decreases self.positions@.len() - i,
        {
            proof {
                lemma_registered_step(self.positions@, i as int);
            }
            match &self.positions[i] {
                Some(p) => {
                    out.push(*p);
                },
                None => {},
            }
            i = i + 1;
        }
        assert(self.positions@.take(i as int) =~= self.positions@);
        out
    }

    /// The position of the account.
    pub fn position(&self, account: &StoredPubkey) -> (r: Result<&Position, ErrorCode>)
        ensures
            !holds_account(self@, account@) ==> r == Err::<&Position, ErrorCode>(
                ErrorCode::UnregisteredPosition,
            ),
            holds_account(self@, account@) ==> r is Ok && self@[account_index(self@, account@)]
                == Some(*r->Ok_0),
    {
        match self.find(account) {
            None => Err(ErrorCode::UnregisteredPosition),
            Some(i) => {
                proof {
                    lemma_account_index(self@, account@, i as int);
                }
                match &self.positions[i] {
                    Some(p) => Ok(p),
                    None => Err(ErrorCode::UnregisteredPosition),
                }
            },
        }
    }

    /// Adds notes to the account's position.
    pub fn add(&mut self, account: &StoredPubkey, notes_amount: Number) -> (r: Result<
        (),
        ErrorCode,
    >)
        requires
            old(self).wf(),
        ensures
            final(self).wf(),
            r == add_result(old(self)@, account@, notes_amount@),
            r is Err ==> final(self)@ == old(self)@,
            r is Ok ==> final(self)@ == with_more(old(self)@, account@, notes_amount@),
    {
        match self.find(account) {
            None => Err(ErrorCode::UnregisteredPosition),
            Some(i) => {
                proof {
                    lemma_account_index(self@, account@, i as int);
                }
                let p = self.positions[i].unwrap();
                match p.amount.checked_add(notes_amount) {
                    None => Err(ErrorCode::Overflow),
                    Some(amount) => {
                        self.positions.set(i, Some(Position { amount, ..p }));
                        proof {
                            lemma_amount_keeps_wf(old(self)@, i as int, amount);
                            Number::lemma_from_raw(amount@);
                            assert(self@ == with_amount(old(self)@, i as int, amount));
                        }
                        Ok(())
                    },
                }
            },
        }
    }

    /// Takes notes from the account's position, down to none.
    pub fn subtract(&mut self, account: &StoredPubkey, notes_amount: Number) -> (r: Result<
        (),
        ErrorCode,
    >)
        requires
            old(self).wf(),
        ensures
            final(self).wf(),
            !holds_account(old(self)@, account@) ==> r == Err::<(), ErrorCode>(
                ErrorCode::UnregisteredPosition,
            ) && final(self)@ == old(self)@,
            holds_account(old(self)@, account@) ==> r is Ok && final(self)@ == with_less(
                old(self)@,
                account@,
                notes_amount@,
            ),
    {
        match self.find(account) {
            None => Err(ErrorCode::UnregisteredPosition),
            Some(i) => {
                proof {
                    lemma_account_index(self@, account@, i as int);
                }
                let p = self.positions[i].unwrap();
                let amount = p.amount.saturating_sub(notes_amount);
                self.positions.set(i, Some(Position { amount, ..p }));
                proof {
                    lemma_amount_keeps_wf(old(self)@, i as int, amount);
                    amount.lemma_bounded();
                    Number::lemma_from_raw(amount@);
                    assert(self@ == with_amount(old(self)@, i as int, amount));
                }
                Ok(())
            },
        }
    }

    /// The market value of all positions, saturating, or the reason why
    /// the first position that cannot be valued cannot be.
    pub fn checked_market_value(&self, market: &MarketReserves, current_slot: u64) -> (r: Result<
        Number,
        ErrorCode,
    >)
        ensures
            match pricing_error(self@, market@, current_slot) {
                Some(e) => r == Err::<Number, ErrorCode>(e),
                None => r is Ok && r->Ok_0@ == saturated(loans_sum(self@, market@, current_slot)),
            },
    {
        let mut value = Number::zero();
        let mut i: usize = 0;
        while i < self.positions.len()
            invariant
                i <= self.positions@.len(),
                pricing_error(self.positions@.take(i as int), market@, current_slot) is None,
                value@ == saturated(
                    loans_sum(self.positions@.take(i as int), market@, current_slot),
                ),
            decreases self.positions@.len() - i,
        {
            proof {
                lemma_valuation_step(self.positions@, market@, current_slot, i as int);
            }
            match &self.positions[i] {
                None => {},
                Some(pos) => {
                    match market.try_get_cached(pos.reserve_index, current_slot) {
                        Err(e) => {
                            proof {
                                lemma_error_persists(
                                    self.positions@,
                                    market@,
                                    current_slot,
                                    i as int + 1,
                                );
                            }
                            return Err(e);
                        },
                        Ok(reserve) => {
                            match pos.checked_value(reserve) {
                                None => {
                                    proof {
                                        lemma_error_persists(
                                            self.positions@,
                                            market@,
                                            current_slot,
                                            i as int + 1,
                                        );
                                    }
                                    return Err(ErrorCode::Overflow);
                                },
                                Some(v) => {
                                    value = v.saturating_add(value);
                                },
                            }
                        },
                    }
                },
            }
            i = i + 1;
        }
        assert(self.positions@.take(i as int) =~= self.positions@);
        Ok(value)
    }

    /// The market value of all positions and the collateral that they
    /// ask for together.
    pub fn market_value(&self, market_info: &MarketReserves, current_slot: u64) -> (r:
        PositionValue)
        requires
            totals_defined(self@, market_info@, current_slot),
        ensures
            r.market_value@ == loans_sum(self@, market_info@, current_slot),
            r.complementary_limit@ == limits_sum(self@, market_info@, current_slot),
    {
        let mut market_value = Number::zero();
        let mut complementary_limit = Number::zero();
        let mut i: usize = 0;
        while i < self.positions.len()
            invariant
                i <= self.positions@.len(),
                totals_defined(self.positions@, market_info@, current_slot),
                market_value@ == loans_sum(
                    self.positions@.take(i as int),
                    market_info@,
                    current_slot,
                ),
                complementary_limit@ == limits_sum(
                    self.positions@.take(i as int),
                    market_info@,
                    current_slot,
                ),
            decreases self.positions@.len() - i,
        {
            proof {
                lemma_valuation_step(self.positions@, market_info@, current_slot, i as int);
                lemma_limits_step(self.positions@, market_info@, current_slot, i as int);
                lemma_no_error_at(self.positions@, market_info@, current_slot, i as int);
                lemma_sums_prefix(self.positions@, market_info@, current_slot, i as int + 1);
            }
            match &self.positions[i] {
                None => {},
                Some(position) => {
                    let reserve = market_info.get_cached(position.reserve_index, current_slot);
                    assert(slot_limit_defined(
                        self.positions@[i as int],
                        market_info@,
                        current_slot,
                    ));
                    let position_value = position.market_value(reserve);
                    market_value = market_value.add(position_value.market_value);
                    complementary_limit = complementary_limit.add(
                        position_value.complementary_limit,
                    );
                },
            }
            i = i + 1;
        }
        assert(self.positions@.take(i as int) =~= self.positions@);
        PositionValue { market_value, complementary_limit }
    }

    /// The market value of all positions, saturating.
    fn _market_value(&self, market: &MarketReserves, current_slot: u64) -> (r: Number)
        requires
            pricing_error(self@, market@, current_slot) is None,
        ensures
            r@ == saturated(loans_sum(self@, market@, current_slot)),
    {
        let mut value = Number::zero();
        let mut i: usize = 0;
        while i < self.positions.len()
            invariant
                i <= self.positions@.len(),
                pricing_error(self.positions@, market@, current_slot) is None,
                value@ == saturated(
                    loans_sum(self.positions@.take(i as int), market@, current_slot),
                ),
            decreases self.positions@.len() - i,
        {
            proof {
                lemma_valuation_step(self.positions@, market@, current_slot, i as int);
                lemma_no_error_at(self.positions@, market@, current_slot, i as int);
            }
            match &self.positions[i] {
                None => {},
                Some(pos) => {
                    let reserve = market.get_cached(pos.reserve_index, current_slot);
                    value = pos._market_value(reserve).saturating_add(value);
                },
            }
            i = i + 1;
        }
        assert(self.positions@.take(i as int) =~= self.positions@);
        value
    }

    /// The strictest collateral ratio among the reserves with a loan
    /// outstanding, or `StaleData` where one of them has no fresh
    /// snapshot.
    fn checked_max_ratio(&self, market: &MarketReserves, current_slot: u64) -> (r: Result<
        Option<Number>,
        ErrorCode,
    >)
        ensures
            ratios_known(self@, market@, current_slot) ==> r is Ok && match max_ratio(
                self@,
                market@,
                current_slot,
            ) {
                Some(x) => r->Ok_0 is Some && r->Ok_0->0@ == x,
                None => r->Ok_0 is None,
            },
            !ratios_known(self@, market@, current_slot) ==> r == Err::<Option<Number>, ErrorCode>(
                ErrorCode::StaleData,
            ),
    {
        let mut best: Option<Number> = None;
        let mut i: usize = 0;
        while i < self.positions.len()
            invariant
                i <= self.positions@.len(),
                ratios_known(self.positions@.take(i as int), market@, current_slot),
                match max_ratio(self.positions@.take(i as int), market@, current_slot) {
                    Some(x) => best is Some && best->0@ == x,
                    None => best is None,
                },
            decreases self.positions@.len() - i,
        {
            proof {
                lemma_valuation_step(self.positions@, market@, current_slot, i as int);
            }
            let ghost before = self.positions@.take(i as int);
            let ghost after = self.positions@.take(i as int + 1);
            match &self.positions[i] {
                None => {},
                Some(pos) => {
                    if !pos.amount.is_zero() {
                        match market.try_get_cached(pos.reserve_index, current_slot) {
                            Err(e) => {
                                assert(slot_active(self.positions@[i as int]));
                                return Err(ErrorCode::StaleData);
                            },
                            Ok(reserve) => {
                                best = match best {
                                    None => Some(reserve.min_collateral_ratio),
                                    Some(b) => Some(b.max(reserve.min_collateral_ratio)),
                                };
                            },
                        }
                    }
                },
            }
            proof {
                assert forall|j: int| 0 <= j < after.len() && slot_active(#[trigger] after[j])
                    implies snapshot_at(
                    market@,
                    after[j]->0.reserve_index as int,
                    current_slot,
                ) is Some by {
                    if j < i {
                        assert(before[j] == after[j]);
                    }
                }
            }
            i = i + 1;
        }
        assert(self.positions@.take(i as int) =~= self.positions@);
        Ok(best)
    }
}

impl Obligation {
    /// The collateral slots.
    pub closed spec fn collateral_spec(&self) -> Seq<Option<StoredPubkey>> {
        self.collateral_nft_mint@
    }

    /// The slots for loan positions.
    pub closed spec fn loans_spec(&self) -> Seq<Option<Position>> {
        self.loans@
    }

    /// The cached valuation.
    pub closed spec fn cached_spec(&self) -> Cache<CalculationCacheInner> {
        self.cached
    }

    /// The market that the obligation is a part of.
    pub closed spec fn market_spec(&self) -> StoredPubkey {
        self.market
    }

    /// The owner of the debt and of the collateral.
    pub closed spec fn owner_spec(&self) -> StoredPubkey {
        self.owner
    }

    /// An obligation has eleven collateral slots and well-formed loans.
    pub open spec fn wf(&self) -> bool {
        &&& self.collateral_spec().len() == COLLATERAL_SLOTS
        &&& side_wf(self.loans_spec())
    }

    /// Whether the obligation is healthy when one collateral item is
    /// worth `price`.
    pub open spec fn healthy_at(
        &self,
        market: Seq<ReserveInfo>,
        slot_time: u64,
        price: nat,
    ) -> bool {
        health_of(
            self.loans_spec(),
            occupied(self.collateral_spec()),
            price,
            market,
            slot_time,
        )
    }

    /// Whether the cached valuation is the one that `cache_calculations`
    /// makes at `slot_time` and `price`.
    pub open spec fn valued_at(
        &self,
        market: Seq<ReserveInfo>,
        slot_time: u64,
        price: nat,
    ) -> bool {
        &&& self.cached_spec().as_of() == slot_time
        &&& !self.cached_spec().is_invalidated()
        &&& self.cached_spec().stale_value().collateral_value@ == occupied(self.collateral_spec())
            * price
        &&& self.cached_spec().stale_value().loan_value@ == saturated(
            loans_sum(self.loans_spec(), market, slot_time),
        )
    }

    /// Whether `other` has the same market and owner.
    pub open spec fn same_parties(&self, other: &Obligation) -> bool {
        &&& self.market_spec() == other.market_spec()
        &&& self.owner_spec() == other.owner_spec()
    }

    /// Whether `other` has the same parties, collateral, loans and
    /// valuation.
    pub open spec fn same_as(&self, other: &Obligation) -> bool {
        &&& self.same_parties(other)
        &&& self.collateral_spec() == other.collateral_spec()
        &&& self.loans_spec() == other.loans_spec()
        &&& self.cached_spec() == other.cached_spec()
    }

    /// The obligation with these parties, collateral slots, loan slots
    /// and valuation, or `None` where the slots are not those of a
    /// well-formed obligation.
    pub fn from_parts(
        market: StoredPubkey,
        owner: StoredPubkey,
        collateral: Vec<Option<StoredPubkey>>,
        loans: Vec<Option<Position>>,
        cached: Cache<CalculationCacheInner>,
    ) -> (r: Option<Obligation>)
        ensures
            collateral@.len() == COLLATERAL_SLOTS && side_wf(loans@) ==> r is Some && r->0.wf()
                && r->0.market_spec() == market && r->0.owner_spec() == owner
                && r->0.collateral_spec() == collateral@ && r->0.loans_spec() == loans@
                && r->0.cached_spec() == cached,
            !(collateral@.len() == COLLATERAL_SLOTS && side_wf(loans@)) ==> r is None,
    {
        if collateral.len() != COLLATERAL_SLOTS || !slots_well_formed(&loans) {
            return None;
        }
        Some(
            Obligation {
                market,
                owner,
                collateral_nft_mint: collateral,
                cached,
                loans: ObligationSide { positions: loans },
            },
        )
    }

    /// The collateral slots.
    pub fn collateral(&self) -> (r: &Vec<Option<StoredPubkey>>)
        ensures
            r@ == self.collateral_spec(),
    {
        &self.collateral_nft_mint
    }

    /// A copy of the obligation.
    pub fn duplicate(&self) -> (r: Obligation)
        ensures
            self.same_as(&r),
    {
        Obligation {
            market: self.market,
            owner: self.owner,
            collateral_nft_mint: copy_slots(&self.collateral_nft_mint),
            cached: self.cached,
            loans: ObligationSide { positions: copy_slots(&self.loans.positions) },
        }
    }

    /// An obligation without collateral and without loans, whose
    /// valuation of zeros is as of slot zero.
    pub fn new(market: StoredPubkey, owner: StoredPubkey) -> (r: Obligation)
        ensures
            r.wf(),
            r.market_spec() == market,
            r.owner_spec() == owner,
            occupied(r.collateral_spec()) == 0,
            occupied(r.loans_spec()) == 0,
            forall|i: int| 0 <= i < r.loans_spec().len() ==> (#[trigger] r.loans_spec()[i]) is None,
            forall|i: int|
                0 <= i < r.collateral_spec().len() ==> (#[trigger] r.collateral_spec()[i]) is None,
            r.cached_spec().is_fresh(0),
            r.cached_spec().stale_value().collateral_value@ == 0,
            r.cached_spec().stale_value().loan_value@ == 0,
    {
        let mut collateral: Vec<Option<StoredPubkey>> = Vec::new();
        let mut i: usize = 0;
        while i < COLLATERAL_SLOTS
            invariant
                i <= COLLATERAL_SLOTS,
                collateral@.len() == i,
                forall|j: int| 0 <= j < i ==> (#[trigger] collateral@[j]) is None,
                occupied(collateral@) == 0,
            decreases COLLATERAL_SLOTS - i,
        {
            let ghost before = collateral@;
            collateral.push(None);
            proof {
                assert(collateral@.drop_last() =~= before);
            }
            i = i + 1;
        }
        Obligation {
            market,
            owner,
            collateral_nft_mint: collateral,
            cached: Cache::new(
                CalculationCacheInner {
                    collateral_value: Number::zero(),
                    loan_value: Number::zero(),
                },
                0,
            ),
            loans: ObligationSide::new(),
        }
    }

    /// Registers a collateral item. An obligation holds one item at a
    /// time, and none once it has eleven loan positions. The cached
    /// valuation no longer holds afterwards.
    pub fn register_nft(&mut self, account: StoredPubkey) -> (r: Result<(), ErrorCode>)
        requires
            old(self).wf(),
        ensures
            final(self).wf(),
            old(self).same_parties(final(self)),
            final(self).loans_spec() == old(self).loans_spec(),
            r is Err ==> final(self).cached_spec() == old(self).cached_spec(),
            r is Ok ==> final(self).cached_spec().invalidation_of(old(self).cached_spec()),
            r is Err ==> final(self).collateral_spec() == old(self).collateral_spec(),
            r == register_nft_result(
                occupied(old(self).collateral_spec()),
                occupied(old(self).loans_spec()),
            ),
            r is Ok ==> final(self).collateral_spec() == old(self).collateral_spec().update(
                0,
                Some(account),
            ) && occupied(final(self).collateral_spec()) == 1 && holds_key(
                final(self).collateral_spec(),
                account@,
            ),
    {
        let held = count_occupied(&self.collateral_nft_mint);
        if held >= COLLATERAL_SLOTS {
            proof {
                lemma_occupied_bound(self.collateral_nft_mint@);
            }
            return Err(ErrorCode::CollateralCapacityExceeded);
        }
        if self.position_count() >= MAX_OBLIGATION_POSITIONS {
            return Err(ErrorCode::NoFreeObligation);
        }
        if held > 0 {
            return Err(ErrorCode::DuplicateCollateral);
        }
        proof {
            lemma_occupied_update(self.collateral_nft_mint@, 0, Some(account));
            lemma_none_occupied(self.collateral_nft_mint@, 0);
        }
        self.collateral_nft_mint.set(0, Some(account));
        self.cached.invalidate();
        assert(self.collateral_nft_mint@[0] matches Some(k) && k@ == account@);
        Ok(())
    }

    /// Frees the slot that holds the collateral item. The cached
    /// valuation no longer holds afterwards.
    pub fn unregister_nft(&mut self, account: StoredPubkey) -> (r: Result<(), ErrorCode>)
        requires
            old(self).wf(),
        ensures
            final(self).wf(),
            old(self).same_parties(final(self)),
            final(self).loans_spec() == old(self).loans_spec(),
            r is Err ==> final(self).cached_spec() == old(self).cached_spec(),
            r is Ok ==> final(self).cached_spec().invalidation_of(old(self).cached_spec()),
            !holds_key(old(self).collateral_spec(), account@) ==> r == Err::<(), ErrorCode>(
                ErrorCode::UnregisteredCollateral,
            ) && final(self).collateral_spec() == old(self).collateral_spec(),
            holds_key(old(self).collateral_spec(), account@) ==> r is Ok,
            holds_key(old(self).collateral_spec(), account@) ==>
                final(self).collateral_spec() == old(self).collateral_spec().update(
                    key_index(old(self).collateral_spec(), account@),
                    None,
                ),
            holds_key(old(self).collateral_spec(), account@) ==>
                occupied(final(self).collateral_spec()) + 1 == occupied(
                    old(self).collateral_spec(),
                ),
    {
        let mut i: usize = 0;
        while i < self.collateral_nft_mint.len()
            invariant
                i <= self.collateral_nft_mint@.len(),
                *self == *old(self),
                self.wf(),
                forall|j: int|
                    0 <= j < i ==> !((#[trigger] self.collateral_nft_mint@[j]) matches Some(k)
                        && k@ == account@),
            decreases self.collateral_nft_mint@.len() - i,
        {
            let found = match &self.collateral_nft_mint[i] {
                Some(k) => k.equals(&account),
                None => false,
            };
            if found {
                proof {
                    lemma_occupied_update(self.collateral_nft_mint@, i as int, None);
                    lemma_key_index(self.collateral_nft_mint@, account@, i as int);
                }
                self.collateral_nft_mint.set(i, None);
                self.cached.invalidate();
                return Ok(());
            }
            i = i + 1;
        }
        Err(ErrorCode::UnregisteredCollateral)
    }

    /// Registers a loan account for the reserve at `reserve_index`.
    pub fn register_loan(&mut self, account: &StoredPubkey, reserve_index: ReserveIndex) -> (r:
        Result<(), ErrorCode>)
        requires
            old(self).wf(),
        ensures
            final(self).wf(),
            old(self).same_parties(final(self)),
            final(self).collateral_spec() == old(self).collateral_spec(),
            final(self).cached_spec() == old(self).cached_spec(),
            r is Err ==> final(self).loans_spec() == old(self).loans_spec(),
            r == register_loan_result(old(self).loans_spec(), account@, reserve_index),
            r is Ok ==> holds_account(final(self).loans_spec(), account@) && holds_reserve(
                final(self).loans_spec(),
                reserve_index,
            ),
            r is Ok ==> occupied(final(self).loans_spec()) == occupied(old(self).loans_spec())
                + 1 && final(self).loans_spec() == old(self).loans_spec().update(
                first_free(old(self).loans_spec()),
                Some(
                    Position {
                        account: *account,
                        amount: Number::from_raw(0),
                        side: Side::Loan,
                        reserve_index,
                    },
                ),
            ),
    {
        if self.position_count() >= MAX_OBLIGATION_POSITIONS {
            return Err(ErrorCode::NoFreeObligation);
        }
        match self.loans.register(Position::new(Side::Loan, *account, reserve_index)) {
            Ok(()) => Ok(()),
            Err(e) => {
                proof {
                    lemma_occupied_bound(old(self).loans@);
                }
                Err(e)
            },
        }
    }

    /// Frees the slot of the loan account. The cached valuation no
    /// longer holds afterwards.
    pub fn unregister_loan(&mut self, account: &StoredPubkey) -> (r: Result<(), ErrorCode>)
        requires
            old(self).wf(),
        ensures
            final(self).wf(),
            old(self).same_parties(final(self)),
            final(self).collateral_spec() == old(self).collateral_spec(),
            r is Err ==> final(self).cached_spec() == old(self).cached_spec(),
            r is Ok ==> final(self).cached_spec().invalidation_of(old(self).cached_spec()),
            !holds_account(old(self).loans_spec(), account@) ==> r == Err::<(), ErrorCode>(
                ErrorCode::ObligationPositionNotFound,
            ) && final(self).loans_spec() == old(self).loans_spec(),
            holds_account(old(self).loans_spec(), account@) ==> r is Ok && final(self).loans_spec()
                == old(self).loans_spec().update(
                account_index(old(self).loans_spec(), account@),
                None,
            ),
    {
        match self.loans.unregister(*account) {
            Err(e) => Err(e),
            Ok(()) => {
                self.cached.invalidate();
                Ok(())
            },
        }
    }

    /// Records notes borrowed on the loan account. The cached valuation
    /// no longer holds afterwards.
    pub fn borrow(&mut self, loan_account: &StoredPubkey, loan_notes_amount: Number) -> (r:
        Result<(), ErrorCode>)
        requires
            old(self).wf(),
        ensures
            final(self).wf(),
            old(self).same_parties(final(self)),
            final(self).collateral_spec() == old(self).collateral_spec(),
            final(self).cached_spec().invalidation_of(old(self).cached_spec()),
            r == add_result(old(self).loans_spec(), loan_account@, loan_notes_amount@),
            r is Err ==> final(self).loans_spec() == old(self).loans_spec(),
            r is Ok ==> final(self).loans_spec() == with_more(
                old(self).loans_spec(),
                loan_account@,
                loan_notes_amount@,
            ),
    {
        self.cached.invalidate();
        self.loans.add(loan_account, loan_notes_amount)
    }

    /// Records notes repaid on the loan account, down to none. The
    /// cached valuation no longer holds afterwards.
    pub fn repay(&mut self, loan_account: &StoredPubkey, loan_notes_amount: Number) -> (r: Result<
        (),
        ErrorCode,
    >)
        requires
            old(self).wf(),
        ensures
            final(self).wf(),
            old(self).same_parties(final(self)),
            final(self).collateral_spec() == old(self).collateral_spec(),
            final(self).cached_spec().invalidation_of(old(self).cached_spec()),
            !holds_account(old(self).loans_spec(), loan_account@) ==> r == Err::<(), ErrorCode>(
                ErrorCode::UnregisteredPosition,
            ) && final(self).loans_spec() == old(self).loans_spec(),
            holds_account(old(self).loans_spec(), loan_account@) ==> r is Ok,
            holds_account(old(self).loans_spec(), loan_account@) ==>
                final(self).loans_spec() == with_less(
                    old(self).loans_spec(),
                    loan_account@,
                    loan_notes_amount@,
                ),
    {
        self.cached.invalidate();
        self.loans.subtract(loan_account, loan_notes_amount)
    }

    /// The number of loan positions registered.
    pub fn position_count(&self) -> (r: usize)
        ensures
            r == occupied(self.loans_spec()),
    {
        self.loans.position_count()
    }

    /// The market that the obligation is a part of.
    pub fn market(&self) -> (r: StoredPubkey)
        ensures
            r == self.market_spec(),
    {
        self.market
    }

    /// The owner of the debt and of the collateral.
    pub fn owner(&self) -> (r: StoredPubkey)
        ensures
            r == self.owner_spec(),
    {
        self.owner
    }

    /// The loan positions.
    pub fn loans(&self) -> (r: &ObligationSide)
        ensures
            r@ == self.loans_spec(),
    {
        &self.loans
    }

    /// The cached valuation.
    pub fn cached(&self) -> (r: &Cache<CalculationCacheInner>)
        ensures
            *r == self.cached_spec(),
    {
        &self.cached
    }

    /// Whether the account is one of the loan accounts registered.
    pub fn has_loan_custody(&self, account: &StoredPubkey) -> (r: bool)
        ensures
            r == holds_account(self.loans_spec(), account@),
    {
        self.loans.find(account).is_some()
    }

    /// Whether the obligation may borrow from the reserve at `index`: it
    /// may not while it owes notes to another reserve.
    pub fn can_borrow_from_reserve(&self, index: ReserveIndex) -> (r: Result<(), ErrorCode>)
        ensures
            owes_elsewhere(self.loans_spec(), index) ==> r == Err::<(), ErrorCode>(
                ErrorCode::AnotherLoanOutstanding,
            ),
            !owes_elsewhere(self.loans_spec(), index) ==> r is Ok,
    {
        let mut i: usize = 0;
        while i < self.loans.positions.len()
            invariant
                i <= self.loans.positions@.len(),
                forall|j: int|
                    0 <= j < i ==> !(slot_active(#[trigger] self.loans.positions@[j])
                        && self.loans.positions@[j]->0.reserve_index != index),
            decreases self.loans.positions@.len() - i,
        {
            match &self.loans.positions[i] {
                None => {},
                Some(position) => {
                    if position.reserve_index != index && !position.amount.is_zero() {
                        assert(slot_active(self.loans.positions@[i as int]));
                        return Err(ErrorCode::AnotherLoanOutstanding);
                    }
                },
            }
            i = i + 1;
        }
        Ok(())
    }

    /// The value of the collateral when one item is worth `price`, or
    /// `None` where it does not fit.
    pub fn checked_nft_collateral_value(&self, price: Number) -> (r: Option<Number>)
        ensures
            occupied(self.collateral_spec()) * price@ <= max_raw() ==> r is Some && r->0@
                == occupied(self.collateral_spec()) * price@,
            occupied(self.collateral_spec()) * price@ > max_raw() ==> r is None,
    {
        let mut value = Number::zero();
        let mut i: usize = 0;
        proof {
            assert(occupied(self.collateral_nft_mint@.take(0)) == 0);
            assert(0 * price@ == 0) by (nonlinear_arith);
        }
        while i < self.collateral_nft_mint.len()
            invariant
                i <= self.collateral_nft_mint@.len(),
                value@ == occupied(self.collateral_nft_mint@.take(i as int)) * price@,
            decreases self.collateral_nft_mint@.len() - i,
        {
            proof {
                lemma_registered_step(self.collateral_nft_mint@, i as int);
            }
            let ghost n = occupied(self.collateral_nft_mint@.take(i as int));
            if self.collateral_nft_mint[i].is_some() {
                proof {
                    assert((n + 1) * price@ == n * price@ + price@) by (nonlinear_arith);
                }
                match value.checked_add(price) {
                    None => {
                        proof {
                            lemma_occupied_prefix(self.collateral_nft_mint@, i as int + 1);
                            let total = occupied(self.collateral_nft_mint@);
                            assert((n + 1) * price@ <= total * price@) by (nonlinear_arith)
                                requires
                                    n + 1 <= total,
                            ;
                        }
                        return None;
                    },
                    Some(v) => {
                        value = v;
                    },
                }
            }
            i = i + 1;
        }
        assert(self.collateral_nft_mint@.take(i as int) =~= self.collateral_nft_mint@);
        proof {
            value.lemma_bounded();
        }
        Some(value)
    }

    /// The value of the collateral when one item is worth `price`.
    pub fn nft_collateral_value(&self, price: Number) -> (r: Number)
        requires
            occupied(self.collateral_spec()) * price@ <= max_raw(),
        ensures
            r@ == occupied(self.collateral_spec()) * price@,
    {
        self.checked_nft_collateral_value(price).unwrap()
    }

    /// Values the collateral and the loans anew and marks the valuation
    /// as fresh at `current_slot`. Where the collateral's value does not
    /// fit, or a loan cannot be valued, nothing changes.
    pub fn try_cache_calculations(
        &mut self,
        market: &MarketReserves,
        current_slot: u64,
        nft_price_data: &MarketOracle,
    ) -> (r: Result<(), ErrorCode>)
        requires
            old(self).wf(),
        ensures
            final(self).wf(),
            old(self).same_parties(final(self)),
            final(self).collateral_spec() == old(self).collateral_spec(),
            final(self).loans_spec() == old(self).loans_spec(),
            r == valuation_result(
                old(self).loans_spec(),
                occupied(old(self).collateral_spec()),
                nft_price_data.price@,
                market@,
                current_slot,
            ),
            r is Ok ==> final(self).valued_at(market@, current_slot, nft_price_data.price@),
            r is Err ==> final(self).cached_spec() == old(self).cached_spec(),
    {
        let collateral_value = match self.checked_nft_collateral_value(nft_price_data.price) {
            None => {
                return Err(ErrorCode::Overflow);
            },
            Some(v) => v,
        };
        let loan_value = match self.loans.checked_market_value(market, current_slot) {
            Err(e) => {
                return Err(e);
            },
            Ok(v) => v,
        };
        self.cached.refresh(current_slot);
        self.cached.set_stale(CalculationCacheInner { collateral_value, loan_value });
        Ok(())
    }

    /// Values the collateral and the loans anew and marks the valuation
    /// as fresh at `current_slot`.
    pub fn cache_calculations(
        &mut self,
        market: &MarketReserves,
        current_slot: u64,
        nft_price_data: &MarketOracle,
    )
        requires
            old(self).wf(),
            valuation_result(
                old(self).loans_spec(),
                occupied(old(self).collateral_spec()),
                nft_price_data.price@,
                market@,
                current_slot,
            ) is Ok,
        ensures
            final(self).wf(),
            old(self).same_parties(final(self)),
            final(self).collateral_spec() == old(self).collateral_spec(),
            final(self).loans_spec() == old(self).loans_spec(),
            final(self).valued_at(market@, current_slot, nft_price_data.price@),
    {
        let collateral_value = self.nft_collateral_value(nft_price_data.price);
        let loan_value = self.loans._market_value(market, current_slot);
        self.cached.refresh(current_slot);
        self.cached.set_stale(CalculationCacheInner { collateral_value, loan_value });
    }

    /// The market value of the loans: the cached one where it is fresh
    /// at `current_slot`, else computed anew.
    pub fn loan_value(&self, market: &MarketReserves, current_slot: u64) -> (r: Number)
        requires
            !self.cached_spec().is_fresh(current_slot) ==> pricing_error(
                self.loans_spec(),
                market@,
                current_slot,
            ) is None,
        ensures
            self.cached_spec().is_fresh(current_slot) ==> r
                == self.cached_spec().stale_value().loan_value,
            !self.cached_spec().is_fresh(current_slot) ==> r@ == saturated(
                loans_sum(self.loans_spec(), market@, current_slot),
            ),
    {
        match self.cached.try_get(current_slot) {
            Ok(values) => values.loan_value,
            Err(_) => self.loans._market_value(market, current_slot),
        }
    }

    /// Whether the collateral covers the loans, by the cached valuation,
    /// or why that cannot be told: `StaleData` where a reserve with a
    /// loan outstanding has no fresh snapshot or, with such a loan, the
    /// valuation is not fresh at `current_slot`; `Overflow` where the
    /// collateral asked for does not fit.
    pub fn try_is_healthy(&self, market: &MarketReserves, current_slot: u64) -> (r: Result<
        bool,
        ErrorCode,
    >)
        ensures
            r == health_result(
                self.loans_spec(),
                self.cached_spec(),
                market@,
                current_slot,
            ),
    {
        let max_min_c_ratio = match self.loans.checked_max_ratio(market, current_slot) {
            Err(e) => {
                return Err(e);
            },
            Ok(None) => {
                return Ok(true);
            },
            Ok(Some(c)) => c,
        };
        let cache_values = match self.cached.try_get(current_slot) {
            Err(e) => {
                return Err(e);
            },
            Ok(v) => v,
        };
        match cache_values.loan_value.checked_mul(max_min_c_ratio) {
            None => Err(ErrorCode::Overflow),
            Some(min_collateral_value) => Ok(
                min_collateral_value.le(&cache_values.collateral_value),
            ),
        }
    }

    /// Values the obligation anew at `current_slot` and says whether
    /// the collateral covers the loans.
    pub fn revalue(
        &mut self,
        market: &MarketReserves,
        current_slot: u64,
        nft_price_data: &MarketOracle,
    ) -> (r: Result<bool, ErrorCode>)
        requires
            old(self).wf(),
        ensures
            final(self).wf(),
            old(self).same_parties(final(self)),
            final(self).collateral_spec() == old(self).collateral_spec(),
            final(self).loans_spec() == old(self).loans_spec(),
            r == revalued_health(
                old(self).loans_spec(),
                occupied(old(self).collateral_spec()),
                nft_price_data.price@,
                market@,
                current_slot,
            ),
            r is Ok ==> final(self).valued_at(market@, current_slot, nft_price_data.price@),
    {
        match self.try_cache_calculations(market, current_slot, nft_price_data) {
            Err(e) => {
                return Err(e);
            },
            Ok(()) => {},
        }
        proof {
            lemma_priced_ratios_known(self.loans_spec(), market@, current_slot);
        }
        self.try_is_healthy(market, current_slot)
    }

    /// Whether the collateral covers the loans, by the cached valuation.
    /// Without a loan outstanding the obligation is healthy.
    pub fn is_healthy(&self, market: &MarketReserves, current_slot: u64) -> (r: bool)
        requires
            health_result(self.loans_spec(), self.cached_spec(), market@, current_slot) is Ok,
        ensures
            r == covers(
                self.cached_spec().stale_value().collateral_value@,
                self.cached_spec().stale_value().loan_value@,
                max_ratio(self.loans_spec(), market@, current_slot),
            ),
    {
        match self.try_is_healthy(market, current_slot) {
            Ok(healthy) => healthy,
            Err(_) => true,
        }
    }
}

/// The first slot of an account is the one that `account_index` names.
pub proof fn lemma_account_index(slots: Seq<Option<Position>>, account: Seq<u8>, i: int)
    requires
        is_first_of_account(slots, account, i),
    ensures
        account_index(slots, account) == i,
        holds_account(slots, account),
        slots[i] is Some,
{
    let j = account_index(slots, account);
    assert(is_first_of_account(slots, account, j));
    if j < i {
        assert(!slot_has_account(slots[j], account));
    } else if i < j {
        assert(!slot_has_account(slots[i], account));
    }
}

/// The first slot of a key is the one that `key_index` names.
pub proof fn lemma_key_index(slots: Seq<Option<StoredPubkey>>, key: Seq<u8>, i: int)
    requires
        is_first_of_key(slots, key, i),
    ensures
        key_index(slots, key) == i,
        holds_key(slots, key),
{
    let j = key_index(slots, key);
    assert(is_first_of_key(slots, key, j));
    if j < i {
        assert(!(slots[j] matches Some(k) && k@ == key));
    } else if i < j {
        assert(!(slots[i] matches Some(k) && k@ == key));
    }
}

/// Changing the amount of one position keeps the slots well formed.
pub proof fn lemma_amount_keeps_wf(slots: Seq<Option<Position>>, i: int, amount: Number)
    requires
        side_wf(slots),
        0 <= i < slots.len(),
        slots[i] is Some,
    ensures
        side_wf(with_amount(slots, i, amount)),
{
    let after = with_amount(slots, i, amount);
    assert forall|a: int, b: int|
        0 <= a < b < after.len() && (#[trigger] after[a]) is Some && (#[trigger] after[b]) is Some
        implies after[a]->0.account@ != after[b]->0.account@ && after[a]->0.reserve_index
        != after[b]->0.reserve_index by {
        assert(slots[a] is Some && slots[b] is Some);
    }
}

/// With eleven collateral items held no further item is registered,
/// for want of room, and neither is any item while one is held.
pub proof fn lemma_collateral_capacity(held: nat, positions: nat)
    ensures
        held >= COLLATERAL_SLOTS ==> register_nft_result(held, positions) == Err::<(), ErrorCode>(
            ErrorCode::CollateralCapacityExceeded,
        ),
        held > 0 ==> register_nft_result(held, positions) is Err,
        positions >= MAX_OBLIGATION_POSITIONS ==> register_nft_result(held, positions) is Err,
{
}

/// With eleven loan positions registered no further position is
/// registered, for want of room, and an account that is registered is
/// never registered again.
pub proof fn lemma_loan_capacity(
    slots: Seq<Option<Position>>,
    account: Seq<u8>,
    index: ReserveIndex,
)
    ensures
        occupied(slots) >= MAX_OBLIGATION_POSITIONS ==> register_loan_result(
            slots,
            account,
            index,
        ) == Err::<(), ErrorCode>(ErrorCode::NoFreeObligation),
        holds_account(slots, account) ==> register_loan_result(slots, account, index) is Err,
        holds_reserve(slots, index) ==> register_loan_result(slots, account, index) is Err,
{
}

} // verus!
