//! A list of jokers with room for negatives.

use super::slate::of_kind;
use super::{Joker, JokerKind, KindTag};
use crate::edition::capacity::{accepts, capacity, full, pushed};
use crate::edition::{negative, ListWithNegatives};
use core::ops::Deref;
use vstd::prelude::*;

verus! {

/// The jokers of a run in a [`ListWithNegatives`]. It is read as a slice.
#[derive(Debug)]
pub struct JokerList(ListWithNegatives<Joker>);

impl View for JokerList {
    type V = Seq<Joker>;

    /// The jokers in the order in which they were pushed.
    closed spec fn view(&self) -> Seq<Joker> {
        self.0@
    }
}

impl JokerList {
    /// The capacity that the list was made with.
    pub closed spec fn base_cap_spec(&self) -> nat {
        self.0.base_cap_spec()
    }

    /// The list underneath is well-formed.
    pub closed spec fn wf(&self) -> bool {
        self.0.wf()
    }

    pub fn new(base_cap: usize) -> (list: Self)
        ensures
            list.wf(),
            list@ == Seq::<Joker>::empty(),
            list.base_cap_spec() == base_cap,
    {
        Self(ListWithNegatives::new(base_cap))
    }

    /// The jokers whose ability has the given tag, in their order.
    pub fn with_tag(&self, tag: KindTag) -> (found: Vec<Joker>)
        ensures
            found@ == of_kind(self@, tag),
    {
        let mut found: Vec<Joker> = Vec::new();
        let jokers: &[Joker] = &self.0;
        let len = jokers.len();
        let mut index: usize = 0;
        while index < len
            invariant
                jokers@ == self@,
                len == self@.len(),
                index <= len,
                found@ == of_kind(self@.take(index as int), tag),
            decreases len - index,
        {
            let joker = jokers[index];
            proof {
                assert(self@.take(index + 1).drop_last() =~= self@.take(index as int));
            }
            if joker.kind() == tag {
                found.push(joker);
            }
            index += 1;
        }
        proof {
            assert(self@.take(len as int) =~= self@);
        }
        found
    }

    /// The jokers whose ability is `J`, in their order.
    pub fn kind<J: JokerKind>(&self) -> (found: Vec<Joker>)
        ensures
            found@ == of_kind(self@, J::tag_spec()),
    {
        self.with_tag(J::tag())
    }

    /// Whether a joker with the ability `J` is there.
    pub fn has_kind<J: JokerKind>(&self) -> (has: bool)
        ensures
            has == (of_kind(self@, J::tag_spec()).len() > 0),
    {
        self.kind::<J>().len() > 0
    }

    pub fn is_full(&self) -> (is_full: bool)
        requires
            self.wf(),
        ensures
            is_full == full(self.base_cap_spec(), self@),
    {
        self.0.is_full()
    }

    pub fn base_cap(&self) -> (base_cap: usize)
        ensures
            base_cap == self.base_cap_spec(),
    {
        self.0.base_cap()
    }

    pub fn cap(&self) -> (cap: usize)
        requires
            self.wf(),
        ensures
            cap == capacity(self.base_cap_spec(), self@),
    {
        self.0.cap()
    }

    /// Adds the joker at the end, or hands it back if it does not fit.
    pub fn push(&mut self, joker: Joker) -> (result: Result<(), Joker>)
        requires
            old(self).wf(),
            negative(joker) ==> capacity(old(self).base_cap_spec(), old(self)@) < usize::MAX,
        ensures
            final(self).wf(),
            final(self).base_cap_spec() == old(self).base_cap_spec(),
            final(self)@ == pushed(old(self).base_cap_spec(), old(self)@, joker),
            result is Ok <==> accepts(old(self).base_cap_spec(), old(self)@, joker),
            result matches Err(rejected) ==> rejected == joker,
            capacity(final(self).base_cap_spec(), final(self)@) == capacity(
                old(self).base_cap_spec(),
                old(self)@,
            ) + if negative(joker) {
                1nat
            } else {
                0nat
            },
    {
        self.0.push(joker)
    }

    /// Takes out the joker at `index`; the jokers behind it move up.
    pub fn remove(&mut self, index: usize) -> (joker: Joker)
        requires
            old(self).wf(),
            index < old(self)@.len(),
        ensures
            final(self).wf(),
            final(self).base_cap_spec() == old(self).base_cap_spec(),
            final(self)@ == old(self)@.remove(index as int),
            joker == old(self)@[index as int],
            capacity(old(self).base_cap_spec(), old(self)@) == capacity(
                final(self).base_cap_spec(),
                final(self)@,
            ) + if negative(joker) {
                1nat
            } else {
                0nat
            },
    {
        self.0.remove(index)
    }
}

impl Deref for JokerList {
    type Target = [Joker];

    fn deref(&self) -> (jokers: &[Joker])
        ensures
            jokers@ == self@,
    {
        &self.0
    }
}

} // verus!
