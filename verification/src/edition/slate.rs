//! The slate: the bounded collection that jokers sit in.

use super::capacity::{
    accepts, capacity, count_negative, full, lemma_count_negative_alike,
    lemma_count_negative_bound, lemma_count_negative_push, lemma_count_negative_remove, pushed,
    within_capacity,
};
use super::{negative, HasEdition, HasEditionExt};
use vstd::prelude::*;
use vstd::std_specs::iter::IteratorSpec;

verus! {

/// An ordered collection with a base capacity that holds any number of
/// negative items besides.
///
/// Items stay in the order in which they were pushed, and removing one does
/// not reorder the others.
#[derive(Debug)]
pub struct Slate<T: Clone> {
    vector: Vec<T>,
    base_cap: usize,
    neg_cnt: usize,
}

impl<T: Clone> View for Slate<T> {
    type V = Seq<T>;

    /// The items in the order in which they were pushed.
    closed spec fn view(&self) -> Seq<T> {
        self.vector@
    }
}

impl<T> Slate<T> where T: HasEdition<Negative = ()> + Clone {
    /// The capacity that the slate was made with.
    pub closed spec fn base_cap_spec(&self) -> nat {
        self.base_cap as nat
    }

    /// The slate keeps count of its negative items, holds no more items than
    /// it has slots, and the number of its slots is one that `usize` holds.
    pub closed spec fn wf(&self) -> bool {
        &&& self.neg_cnt == count_negative(self.vector@)
        &&& within_capacity(self.base_cap as nat, self.vector@)
        &&& capacity(self.base_cap as nat, self.vector@) <= usize::MAX
    }

    /// What [`Self::wf`] says in terms of the items.
    pub proof fn lemma_wf(&self)
        requires
            self.wf(),
        ensures
            within_capacity(self.base_cap_spec(), self@),
            capacity(self.base_cap_spec(), self@) <= usize::MAX,
    {
    }

    pub fn new(base_cap: usize) -> (slate: Self)
        ensures
            slate.wf(),
            slate@ == Seq::<T>::empty(),
            slate.base_cap_spec() == base_cap,
    {
        Self { vector: Vec::new(), base_cap, neg_cnt: 0 }
    }

    pub fn is_empty(&self) -> (is_empty: bool)
        ensures
            is_empty == (self@.len() == 0),
    {
        self.vector.is_empty()
    }

    pub fn is_full(&self) -> (is_full: bool)
        requires
            self.wf(),
        ensures
            is_full == full(self.base_cap_spec(), self@),
    {
        self.len() == self.cap()
    }

    pub fn len(&self) -> (len: usize)
        ensures
            len == self@.len(),
    {
        self.vector.len()
    }

    /// The number of free slots.
    pub fn free_len(&self) -> (free_len: usize)
        requires
            self.wf(),
        ensures
            free_len == capacity(self.base_cap_spec(), self@) - self@.len(),
    {
        self.cap() - self.len()
    }

    pub fn cap(&self) -> (cap: usize)
        requires
            self.wf(),
        ensures
            cap == capacity(self.base_cap_spec(), self@),
    {
        self.base_cap + self.neg_cnt
    }

    pub fn base_cap(&self) -> (base_cap: usize)
        ensures
            base_cap == self.base_cap_spec(),
    {
        self.base_cap
    }

    /// Adds the item at the end, or hands it back if it does not fit.
    pub fn push(&mut self, item: T) -> (result: Result<(), T>)
        requires
            old(self).wf(),
            negative(item) ==> capacity(old(self).base_cap_spec(), old(self)@) < usize::MAX,
        ensures
            final(self).wf(),
            final(self).base_cap_spec() == old(self).base_cap_spec(),
            final(self)@ == pushed(old(self).base_cap_spec(), old(self)@, item),
            result is Ok <==> accepts(old(self).base_cap_spec(), old(self)@, item),
            result matches Err(rejected) ==> rejected == item,
            capacity(final(self).base_cap_spec(), final(self)@) == capacity(
                old(self).base_cap_spec(),
                old(self)@,
            ) + if negative(item) {
                1nat
            } else {
                0nat
            },
    {
        proof {
            lemma_count_negative_push(self.vector@, item);
        }
        if item.is_negative() {
            self.vector.push(item);
            self.neg_cnt += 1;
            Ok(())
        } else if !self.is_full() {
            self.vector.push(item);
            Ok(())
        } else {
            Err(item)
        }
    }

    /// Takes out the item at `index`; the items behind it move up.
    pub fn remove(&mut self, index: usize) -> (item: T)
        requires
            old(self).wf(),
            index < old(self)@.len(),
        ensures
            final(self).wf(),
            final(self).base_cap_spec() == old(self).base_cap_spec(),
            final(self)@ == old(self)@.remove(index as int),
            item == old(self)@[index as int],
            capacity(old(self).base_cap_spec(), old(self)@) == capacity(
                final(self).base_cap_spec(),
                final(self)@,
            ) + if negative(item) {
                1nat
            } else {
                0nat
            },
    {
        proof {
            lemma_count_negative_remove(self.vector@, index as int);
        }
        let item = self.vector.remove(index);
        if item.is_negative() {
            self.neg_cnt -= 1;
        }
        item
    }

    /// The item at `index`, if there is one.
    pub fn get(&self, index: usize) -> (item: Option<&T>)
        ensures
            index < self@.len() ==> item == Some(&self@[index as int]),
            index >= self@.len() ==> item is None,
    {
        if index < self.vector.len() {
            Some(&self.vector[index])
        } else {
            None
        }
    }

    /// Walks the items in their order.
    pub fn iter(&self) -> (iter: core::slice::Iter<'_, T>)
        ensures
            iter.remaining() == self@.as_ref(),
    {
        self.vector.iter()
    }
}

impl<T: HasEdition<Negative = ()> + Clone> Clone for Slate<T> {
    /// A slate with the same base capacity that holds a clone of each item,
    /// in the same order. It is well-formed if this one is and the clones
    /// are negative exactly where the items are.
    fn clone(&self) -> (copy: Self)
        ensures
            copy.base_cap_spec() == self.base_cap_spec(),
            copy@.len() == self@.len(),
            forall|i: int| 0 <= i < self@.len() ==> cloned(self@[i], #[trigger] copy@[i]),
            self.wf() && (forall|i: int|
                0 <= i < self@.len() ==> negative(self@[i]) == negative(copy@[i])) ==> copy.wf(),
    {
        let copy = Slate {
            vector: self.vector.clone(),
            base_cap: self.base_cap,
            neg_cnt: self.neg_cnt,
        };
        proof {
            if forall|i: int| 0 <= i < self@.len() ==> negative(self@[i]) == negative(copy@[i]) {
                lemma_count_negative_alike(self@, copy@);
            }
        }
        copy
    }
}

impl<'a, T: Clone> IntoIterator for &'a Slate<T> {
    type Item = &'a T;

    type IntoIter = core::slice::Iter<'a, T>;

    /// Walks the items in their order.
    fn into_iter(self) -> (iter: core::slice::Iter<'a, T>)
        ensures
            iter.remaining() == self@.as_ref(),
    {
        self.vector.iter()
    }
}

impl<T: Clone> IntoIterator for Slate<T> {
    type Item = T;

    type IntoIter = std::vec::IntoIter<T>;

    /// Hands out the items in their order.
    fn into_iter(self) -> (iter: std::vec::IntoIter<T>)
        ensures
            iter.remaining() == self@,
    {
        self.vector.into_iter()
    }
}

} // verus!
