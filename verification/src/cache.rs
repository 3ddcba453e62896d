//! A value kept together with the point up to which it is known to hold.

use vstd::prelude::*;
use crate::errors::ErrorCode;

verus! {

/// A cached value. It is fresh for a required point when no one has
/// invalidated it since it was last refreshed and that refresh was made
/// at the required point or later; otherwise it is stale, and only the
/// accessors that say so in their names hand the value out.
#[derive(Clone, Copy, Debug)]
pub struct Cache<T> {
    value: T,
    last_updated: u64,
    invalidated: bool,
}

impl<T> Cache<T> {
    /// The value held, fresh or not.
    pub closed spec fn stale_value(&self) -> T {
        self.value
    }

    /// The point of the last refresh.
    pub closed spec fn as_of(&self) -> u64 {
        self.last_updated
    }

    /// Whether the value was invalidated since the last refresh.
    pub closed spec fn is_invalidated(&self) -> bool {
        self.invalidated
    }

    /// Whether the value may be trusted at `required`.
    pub open spec fn is_fresh(&self, required: u64) -> bool {
        !self.is_invalidated() && self.as_of() >= required
    }

    /// Whether the cache is `before` once it was invalidated.
    pub open spec fn invalidation_of(&self, before: Cache<T>) -> bool {
        &&& self.is_invalidated()
        &&& self.stale_value() == before.stale_value()
        &&& self.as_of() == before.as_of()
    }

    /// A cache that holds `value`, fresh as of `point`.
    pub fn new(value: T, point: u64) -> (r: Cache<T>)
        ensures
            r.stale_value() == value,
            r.as_of() == point,
            !r.is_invalidated(),
    {
        Cache { value, last_updated: point, invalidated: false }
    }

    /// The point of the last refresh.
    pub fn last_updated(&self) -> (r: u64)
        ensures
            r == self.as_of(),
    {
        self.last_updated
    }

    /// Whether the value was invalidated since the last refresh.
    pub fn invalidated(&self) -> (r: bool)
        ensures
            r == self.is_invalidated(),
    {
        self.invalidated
    }

    /// Whether the value may be trusted at `required`.
    pub fn fresh_at(&self, required: u64) -> (r: bool)
        ensures
            r == self.is_fresh(required),
    {
        !self.invalidated && self.last_updated >= required
    }

    /// The value, if it is fresh at `required`.
    pub fn try_get(&self, required: u64) -> (r: Result<&T, ErrorCode>)
        ensures
            self.is_fresh(required) ==> r == Ok::<&T, ErrorCode>(&self.stale_value()),
            !self.is_fresh(required) ==> r == Err::<&T, ErrorCode>(ErrorCode::StaleData),
    {
        if self.fresh_at(required) {
            Ok(&self.value)
        } else {
            Err(ErrorCode::StaleData)
        }
    }

    /// The value, which the caller knows to be fresh at `required`.
    pub fn expect(&self, required: u64) -> (r: &T)
        requires
            self.is_fresh(required),
        ensures
            *r == self.stale_value(),
    {
        &self.value
    }

    /// The value held, fresh or not.
    pub fn get_stale(&self) -> (r: &T)
        ensures
            *r == self.stale_value(),
    {
        &self.value
    }

    /// The value held, fresh or not, to be changed in place.
    pub fn get_stale_mut(&mut self) -> (r: &mut T)
        ensures
            *r == old(self).stale_value(),
            final(self).stale_value() == *final(r),
            final(self).as_of() == old(self).as_of(),
            final(self).is_invalidated() == old(self).is_invalidated(),
    {
        &mut self.value
    }

    /// Replaces the value held and leaves its freshness as it was.
    pub fn set_stale(&mut self, value: T)
        ensures
            final(self).stale_value() == value,
            final(self).as_of() == old(self).as_of(),
            final(self).is_invalidated() == old(self).is_invalidated(),
    {
        self.value = value;
    }

    /// Marks the value held as fresh as of `point`.
    pub fn refresh_to(&mut self, point: u64)
        ensures
            final(self).stale_value() == old(self).stale_value(),
            final(self).as_of() == point,
            !final(self).is_invalidated(),
    {
        self.last_updated = point;
        self.invalidated = false;
    }

    /// Marks the value held as fresh as of `point`.
    pub fn refresh(&mut self, point: u64)
        ensures
            final(self).stale_value() == old(self).stale_value(),
            final(self).as_of() == point,
            !final(self).is_invalidated(),
    {
        self.refresh_to(point);
    }

    /// Marks the value held as stale, whatever point is asked for.
    pub fn invalidate(&mut self)
        ensures
            final(self).stale_value() == old(self).stale_value(),
            final(self).as_of() == old(self).as_of(),
            final(self).is_invalidated(),
            forall|required: u64| !final(self).is_fresh(required),
    {
        self.invalidated = true;
    }
}

} // verus!
