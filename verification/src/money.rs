//! Money, the currency that jokers are bought with and blinds pay out.

use vstd::prelude::*;

verus! {

/// An amount of money, in whole dollars.
#[derive(Debug, Copy, Clone, PartialEq, Eq, PartialOrd, Ord, Structural)]
pub struct Money(pub u64);

} // verus!
