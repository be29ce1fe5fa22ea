//! The capacity rule of collections that hold negative items.
//!
//! A collection is made with a base capacity. Each negative item that it
//! holds adds one slot, so a negative item always fits, while any other item
//! fits only where a slot is free.

use super::{negative, HasEdition};
use vstd::prelude::*;

verus! {

/// How many of the items are negative.
pub open spec fn count_negative<T: HasEdition>(items: Seq<T>) -> nat
    decreases items.len(),
{
    if items.len() == 0 {
        0
    } else {
        count_negative(items.drop_last()) + if negative(items.last()) {
            1nat
        } else {
            0nat
        }
    }
}

/// The number of slots: the base capacity and one more for each negative item.
pub open spec fn capacity<T: HasEdition>(base_cap: nat, items: Seq<T>) -> nat {
    base_cap + count_negative(items)
}

/// Whether every slot is taken.
pub open spec fn full<T: HasEdition>(base_cap: nat, items: Seq<T>) -> bool {
    items.len() == capacity(base_cap, items)
}

/// Whether the items fit into the slots. A collection that starts out empty
/// and changes by [`pushed`] and by removing items never holds more.
pub open spec fn within_capacity<T: HasEdition>(base_cap: nat, items: Seq<T>) -> bool {
    items.len() <= capacity(base_cap, items)
}

/// Whether a push of `item` is accepted: a negative item always is, any other
/// item only while a slot is free.
pub open spec fn accepts<T: HasEdition>(base_cap: nat, items: Seq<T>, item: T) -> bool {
    negative(item) || !full(base_cap, items)
}

/// The items after a push of `item`: it comes last if it is accepted, and
/// nothing changes if it is not.
pub open spec fn pushed<T: HasEdition>(base_cap: nat, items: Seq<T>, item: T) -> Seq<T> {
    if accepts(base_cap, items, item) {
        items.push(item)
    } else {
        items
    }
}

/// The items after pushing each item of `batch` in turn.
pub open spec fn pushed_all<T: HasEdition>(base_cap: nat, items: Seq<T>, batch: Seq<T>) -> Seq<T>
    decreases batch.len(),
{
    if batch.len() == 0 {
        items
    } else {
        pushed(base_cap, pushed_all(base_cap, items, batch.drop_last()), batch.last())
    }
}

/// No more items are negative than there are items.
pub proof fn lemma_count_negative_bound<T: HasEdition>(items: Seq<T>)
    ensures
        count_negative(items) <= items.len(),
    decreases items.len(),
{
    if items.len() > 0 {
        lemma_count_negative_bound(items.drop_last());
    }
}

/// An item that is added at the end counts if it is negative.
pub proof fn lemma_count_negative_push<T: HasEdition>(items: Seq<T>, item: T)
    ensures
        count_negative(items.push(item)) == count_negative(items) + if negative(item) {
            1nat
        } else {
            0nat
        },
{
    assert(items.push(item).drop_last() =~= items);
}

/// An item that is taken out no longer counts.
pub proof fn lemma_count_negative_remove<T: HasEdition>(items: Seq<T>, index: int)
    requires
        0 <= index < items.len(),
    ensures
        count_negative(items) == count_negative(items.remove(index)) + if negative(items[index]) {
            1nat
        } else {
            0nat
        },
    decreases items.len(),
{
    if index < items.len() - 1 {
        lemma_count_negative_remove(items.drop_last(), index);
        assert(items.remove(index).drop_last() =~= items.drop_last().remove(index));
    }
}

/// Two rows of items that are negative in the same places hold as many
/// negative items.
pub proof fn lemma_count_negative_alike<T: HasEdition>(items: Seq<T>, others: Seq<T>)
    requires
        items.len() == others.len(),
        forall|i: int| 0 <= i < items.len() ==> negative(items[i]) == negative(others[i]),
    ensures
        count_negative(items) == count_negative(others),
    decreases items.len(),
{
    if items.len() > 0 {
        lemma_count_negative_alike(items.drop_last(), others.drop_last());
    }
}

/// An empty collection is within its capacity, and pushing and removing keep
/// it there: the free length, capacity less length, is never negative.
pub proof fn lemma_within_capacity_kept<T: HasEdition>(
    base_cap: nat,
    items: Seq<T>,
    item: T,
    index: int,
)
    ensures
        within_capacity(base_cap, Seq::<T>::empty()),
        within_capacity(base_cap, items) ==> within_capacity(
            base_cap,
            pushed(base_cap, items, item),
        ),
        within_capacity(base_cap, items) && 0 <= index < items.len() ==> within_capacity(
            base_cap,
            items.remove(index),
        ),
{
    lemma_count_negative_push(items, item);
    if 0 <= index < items.len() {
        lemma_count_negative_remove(items, index);
    }
}

/// Pushes of items that are not negative onto an empty collection all
/// succeed as long as there are no more of them than the base capacity, and
/// the collection is full exactly when there are as many.
pub proof fn lemma_fills_at_base_cap<T: HasEdition>(base_cap: nat, batch: Seq<T>)
    requires
        batch.len() <= base_cap,
        forall|i: int| 0 <= i < batch.len() ==> !negative(#[trigger] batch[i]),
    ensures
        pushed_all(base_cap, Seq::<T>::empty(), batch) == batch,
        capacity(base_cap, batch) == base_cap,
        full(base_cap, batch) <==> batch.len() == base_cap,
    decreases batch.len(),
{
    if batch.len() > 0 {
        lemma_fills_at_base_cap(base_cap, batch.drop_last());
    }
}

/// Once as many items as the base capacity have been pushed, none of them
/// negative, the next such push is refused and leaves the items as they are.
pub proof fn lemma_rejects_past_base_cap<T: HasEdition>(base_cap: nat, batch: Seq<T>, item: T)
    requires
        batch.len() == base_cap,
        forall|i: int| 0 <= i < batch.len() ==> !negative(#[trigger] batch[i]),
        !negative(item),
    ensures
        !accepts(base_cap, pushed_all(base_cap, Seq::<T>::empty(), batch), item),
        pushed_all(base_cap, Seq::<T>::empty(), batch.push(item)) == batch,
{
    lemma_fills_at_base_cap(base_cap, batch);
    assert(batch.push(item).drop_last() =~= batch);
}

/// A negative item is accepted whether or not the collection is full. It
/// brings its own slot: the capacity grows by one, and a collection that was
/// full is full again.
pub proof fn lemma_negative_always_fits<T: HasEdition>(base_cap: nat, items: Seq<T>, item: T)
    requires
        negative(item),
    ensures
        accepts(base_cap, items, item),
        pushed(base_cap, items, item) == items.push(item),
        capacity(base_cap, items.push(item)) == capacity(base_cap, items) + 1,
        full(base_cap, items.push(item)) <==> full(base_cap, items),
{
    lemma_count_negative_push(items, item);
}

/// Removing a negative item takes its slot away: the capacity shrinks by
/// one. Removing any other item leaves the capacity as it is.
pub proof fn lemma_remove_changes_capacity<T: HasEdition>(base_cap: nat, items: Seq<T>, index: int)
    requires
        0 <= index < items.len(),
    ensures
        negative(items[index]) ==> capacity(base_cap, items.remove(index)) + 1 == capacity(
            base_cap,
            items,
        ),
        !negative(items[index]) ==> capacity(base_cap, items.remove(index)) == capacity(
            base_cap,
            items,
        ),
{
    lemma_count_negative_remove(items, index);
}

} // verus!
