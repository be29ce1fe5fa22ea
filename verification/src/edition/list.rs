//! A plain list with room for negatives.

use super::capacity::{
    accepts, capacity, count_negative, full, lemma_count_negative_bound,
    lemma_count_negative_push, lemma_count_negative_remove, pushed, within_capacity,
};
use super::{negative, HasEdition, HasEditionExt};
use core::ops::Deref;
use vstd::prelude::*;

verus! {

/// An ordered list with a base capacity that holds any number of negative
/// items besides. It is read as a slice.
#[derive(Debug)]
pub struct ListWithNegatives<T: HasEdition<Negative = ()>> {
    vec: Vec<T>,
    base_cap: usize,
    neg_cnt: usize,
}

impl<T: HasEdition<Negative = ()>> View for ListWithNegatives<T> {
    type V = Seq<T>;

    /// The items in the order in which they were pushed.
    closed spec fn view(&self) -> Seq<T> {
        self.vec@
    }
}

impl<T: HasEdition<Negative = ()>> ListWithNegatives<T> {
    /// The capacity that the list was made with.
    pub closed spec fn base_cap_spec(&self) -> nat {
        self.base_cap as nat
    }

    /// The list keeps count of its negative items, holds no more items than
    /// it has slots, and the number of its slots is one that `usize` holds.
    pub closed spec fn wf(&self) -> bool {
        &&& self.neg_cnt == count_negative(self.vec@)
        &&& within_capacity(self.base_cap as nat, self.vec@)
        &&& capacity(self.base_cap as nat, self.vec@) <= usize::MAX
    }

    /// What [`Self::wf`] says in terms of the items.
    pub proof fn lemma_wf(&self)
        requires
            self.wf(),
        ensures
            within_capacity(self.base_cap_spec(), self@),
            capacity(self.base_cap_spec(), self@) <= usize::MAX,
    {
    }

    pub fn new(base_cap: usize) -> (list: Self)
        ensures
            list.wf(),
            list@ == Seq::<T>::empty(),
            list.base_cap_spec() == base_cap,
    {
        Self { vec: Vec::new(), base_cap, neg_cnt: 0 }
    }

    pub fn is_full(&self) -> (is_full: bool)
        requires
            self.wf(),
        ensures
            is_full == full(self.base_cap_spec(), self@),
    {
        self.vec.len() == self.cap()
    }

    pub fn base_cap(&self) -> (base_cap: usize)
        ensures
            base_cap == self.base_cap_spec(),
    {
        self.base_cap
    }

    pub fn cap(&self) -> (cap: usize)
        requires
            self.wf(),
        ensures
            cap == capacity(self.base_cap_spec(), self@),
    {
        self.base_cap + self.neg_cnt
    }

    /// Adds the item at the end, or hands it back if it does not fit.
    pub fn push(&mut self, item: T) -> (result: Result<(), T>)
        requires
            old(self).wf(),
            negative(item) ==> capacity(old(self).base_cap_spec(), old(self)@) < usize::MAX,
        ensures
            final(self).wf(),
            final(self).base_cap_spec() == old(self).base_cap_spec(),
            final(self)@ == pushed(old(self).base_cap_spec(), old(self)@, item),
            result is Ok <==> accepts(old(self).base_cap_spec(), old(self)@, item),
            result matches Err(rejected) ==> rejected == item,
            capacity(final(self).base_cap_spec(), final(self)@) == capacity(
                old(self).base_cap_spec(),
                old(self)@,
            ) + if negative(item) {
                1nat
            } else {
                0nat
            },
    {
        proof {
            lemma_count_negative_push(self.vec@, item);
        }
        if is_negative(&item) {
            self.vec.push(item);
            self.neg_cnt += 1;
            Ok(())
        } else if !self.is_full() {
            self.vec.push(item);
            Ok(())
        } else {
            Err(item)
        }
    }

    /// Takes out the item at `index`; the items behind it move up.
    pub fn remove(&mut self, index: usize) -> (item: T)
        requires
            old(self).wf(),
            index < old(self)@.len(),
        ensures
            final(self).wf(),
            final(self).base_cap_spec() == old(self).base_cap_spec(),
            final(self)@ == old(self)@.remove(index as int),
            item == old(self)@[index as int],
            capacity(old(self).base_cap_spec(), old(self)@) == capacity(
                final(self).base_cap_spec(),
                final(self)@,
            ) + if negative(item) {
                1nat
            } else {
                0nat
            },
    {
        proof {
            lemma_count_negative_remove(self.vec@, index as int);
        }
        let item = self.vec.remove(index);
        if is_negative(&item) {
            self.neg_cnt -= 1;
        }
        item
    }
}

impl<T: HasEdition<Negative = ()>> Deref for ListWithNegatives<T> {
    type Target = [T];

    fn deref(&self) -> (items: &[T])
        ensures
            items@ == self@,
    {
        self.vec.as_slice()
    }
}

/// Whether the item carries the negative edition.
pub fn is_negative<T: HasEdition<Negative = ()>>(item: &T) -> (is_negative: bool)
    ensures
        is_negative == negative(*item),
{
    item.is_negative()
}

} // verus!
