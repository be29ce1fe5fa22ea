//! Card suits.

use vstd::prelude::*;

verus! {

#[derive(Debug, Copy, Clone, PartialEq, Eq, PartialOrd, Ord, Structural)]
pub enum Suit {
    Club,
    Diamond,
    Heart,
    Spade,
}

/// The colour a suit is printed in.
#[derive(Debug, Copy, Clone, PartialEq, Eq, Structural)]
pub enum SuitFamily {
    Red,
    Black,
}

impl Suit {
    /// Diamonds and hearts are red; clubs and spades are black.
    pub open spec fn family_spec(self) -> SuitFamily {
        match self {
            Suit::Diamond | Suit::Heart => SuitFamily::Red,
            Suit::Club | Suit::Spade => SuitFamily::Black,
        }
    }

    #[verifier::when_used_as_spec(family_spec)]
    pub fn family(self) -> (family: SuitFamily)
        ensures
            family == self.family_spec(),
    {
        match self {
            Suit::Club => SuitFamily::Black,
            Suit::Diamond => SuitFamily::Red,
            Suit::Heart => SuitFamily::Red,
            Suit::Spade => SuitFamily::Black,
        }
    }
}

} // verus!
