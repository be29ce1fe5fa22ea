//! Antes, the stages of a run.

use vstd::prelude::*;

verus! {

/// The number of an ante. Antes are counted from one.
#[derive(Debug, Copy, Clone, PartialEq, Eq, PartialOrd, Ord)]
pub struct Ante(u8);

impl View for Ante {
    type V = nat;

    closed spec fn view(&self) -> nat {
        self.0 as nat
    }
}

impl Ante {
    #[verifier::type_invariant]
    spec fn counted_from_one(self) -> bool {
        self.0 >= 1
    }
}

impl Default for Ante {
    /// The ante that a run starts in.
    fn default() -> (ante: Ante)
        ensures
            ante@ == 1,
    {
        Ante(1)
    }
}

} // verus!
