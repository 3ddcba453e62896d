//! Rows of slots, each of which holds an entry or is empty.

use vstd::prelude::*;

verus! {

/// The entries that the slots hold, in the order of the slots.
pub open spec fn registered<T>(slots: Seq<Option<T>>) -> Seq<T>
    decreases slots.len(),
{
    if slots.len() == 0 {
        Seq::empty()
    } else {
        match slots.last() {
            Some(entry) => registered(slots.drop_last()).push(entry),
            None => registered(slots.drop_last()),
        }
    }
}

/// The number of slots that hold an entry.
pub open spec fn occupied<T>(slots: Seq<Option<T>>) -> nat {
    registered(slots).len()
}

/// Whether `i` is the first empty slot.
pub open spec fn is_first_free<T>(slots: Seq<Option<T>>, i: int) -> bool {
    &&& 0 <= i < slots.len()
    &&& slots[i] is None
    &&& forall|j: int| 0 <= j < i ==> (#[trigger] slots[j]) is Some
}

/// The first empty slot, where there is one.
pub open spec fn first_free<T>(slots: Seq<Option<T>>) -> int {
    choose|i: int| is_first_free(slots, i)
}

/// Taking one more slot into account adds its entry, if it has one.
pub proof fn lemma_registered_step<T>(slots: Seq<Option<T>>, i: int)
    requires
        0 <= i < slots.len(),
    ensures
        registered(slots.take(i + 1)) == match slots[i] {
            Some(entry) => registered(slots.take(i)).push(entry),
            None => registered(slots.take(i)),
        },
{
    assert(slots.take(i + 1).drop_last() =~= slots.take(i));
}

/// No more slots are occupied than there are slots.
pub proof fn lemma_occupied_bound<T>(slots: Seq<Option<T>>)
    ensures
        occupied(slots) <= slots.len(),
    decreases slots.len(),
{
    if slots.len() > 0 {
        lemma_occupied_bound(slots.drop_last());
    }
}

/// Among the first slots no more are occupied than among all.
pub proof fn lemma_occupied_prefix<T>(slots: Seq<Option<T>>, n: int)
    requires
        0 <= n <= slots.len(),
    ensures
        occupied(slots.take(n)) <= occupied(slots),
    decreases slots.len() - n,
{
    if n == slots.len() {
        assert(slots.take(n) =~= slots);
    } else {
        lemma_registered_step(slots, n);
        lemma_occupied_prefix(slots, n + 1);
    }
}

/// Where no slot is occupied, each slot is empty.
pub proof fn lemma_none_occupied<T>(slots: Seq<Option<T>>, i: int)
    requires
        occupied(slots) == 0,
        0 <= i < slots.len(),
    ensures
        slots[i] is None,
    decreases slots.len(),
{
    if i < slots.len() - 1 {
        lemma_none_occupied(slots.drop_last(), i);
    }
}

/// Where fewer slots are occupied than there are slots, one is free.
pub proof fn lemma_free_slot_exists<T>(slots: Seq<Option<T>>)
    requires
        occupied(slots) < slots.len(),
    ensures
        exists|i: int| 0 <= i < slots.len() && (#[trigger] slots[i]) is None,
    decreases slots.len(),
{
    if slots.last() is Some {
        lemma_free_slot_exists(slots.drop_last());
        let rest = slots.drop_last();
        let i = choose|i: int| 0 <= i < rest.len() && (#[trigger] rest[i]) is None;
        assert(slots[i] is None);
    } else {
        assert(slots[slots.len() - 1] is None);
    }
}

/// The first empty slot is the one that `first_free` names.
pub proof fn lemma_first_free_unique<T>(slots: Seq<Option<T>>, i: int)
    requires
        is_first_free(slots, i),
    ensures
        first_free(slots) == i,
{
    let j = first_free(slots);
    assert(is_first_free(slots, j));
    if j < i {
        assert(slots[j] is Some);
    } else if i < j {
        assert(slots[i] is Some);
    }
}

/// Filling or freeing one slot changes the number of occupied slots by
/// what that slot held and holds.
pub proof fn lemma_occupied_update<T>(slots: Seq<Option<T>>, i: int, entry: Option<T>)
    requires
        0 <= i < slots.len(),
    ensures
        occupied(slots.update(i, entry)) + (if slots[i] is Some {
            1nat
        } else {
            0nat
        }) == occupied(slots) + (if entry is Some {
            1nat
        } else {
            0nat
        }),
    decreases slots.len(),
{
    let after = slots.update(i, entry);
    if i == slots.len() - 1 {
        assert(after.drop_last() =~= slots.drop_last());
    } else {
        lemma_occupied_update(slots.drop_last(), i, entry);
        assert(after.drop_last() =~= slots.drop_last().update(i, entry));
    }
}

/// A copy of the slots.
pub(crate) fn copy_slots<T: Copy>(slots: &Vec<Option<T>>) -> (r: Vec<Option<T>>)
    ensures
        r@ == slots@,
{
    let mut out: Vec<Option<T>> = Vec::new();
    let mut i: usize = 0;
    while i < slots.len()
        invariant
            i <= slots@.len(),
            out@ == slots@.take(i as int),
        decreases slots@.len() - i,
    {
        out.push(slots[i]);
        assert(slots@.take(i as int + 1) =~= slots@.take(i as int).push(slots@[i as int]));
        i = i + 1;
    }
    assert(slots@.take(i as int) =~= slots@);
    out
}

/// The number of slots that hold an entry.
pub(crate) fn count_occupied<T>(slots: &Vec<Option<T>>) -> (r: usize)
    ensures
        r == occupied(slots@),
{
    let mut count: usize = 0;
    let mut i: usize = 0;
    while i < slots.len()
        invariant
            i <= slots@.len(),
            count == occupied(slots@.take(i as int)),
            count <= i,
        decreases slots@.len() - i,
    {
        proof {
            lemma_registered_step(slots@, i as int);
        }
        if slots[i].is_some() {
            count = count + 1;
        }
        i = i + 1;
    }
    assert(slots@.take(i as int) =~= slots@);
    count
}

} // verus!
