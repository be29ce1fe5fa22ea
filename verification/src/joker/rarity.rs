//! How rare a joker is.

use core::cmp::Ordering;
use vstd::prelude::*;
use vstd::std_specs::cmp::PartialOrdSpecImpl;

verus! {

/// How rare a joker is, from the most common to the rarest.
#[derive(Debug, Copy, Clone, PartialEq, Eq, Ord, Structural)]
pub enum Rarity {
    Common,
    Uncommon,
    Rare,
    Legendary,
}

impl Rarity {
    /// The place of the rarity in the order: the rarer, the higher.
    pub open spec fn rank(self) -> nat {
        match self {
            Rarity::Common => 0,
            Rarity::Uncommon => 1,
            Rarity::Rare => 2,
            Rarity::Legendary => 3,
        }
    }

    fn place(self) -> (place: u8)
        ensures
            place == self.rank(),
    {
        match self {
            Rarity::Common => 0,
            Rarity::Uncommon => 1,
            Rarity::Rare => 2,
            Rarity::Legendary => 3,
        }
    }
}

impl PartialOrd for Rarity {
    /// Rarities are ordered by their [`Rarity::rank`].
    fn partial_cmp(&self, other: &Rarity) -> (order: Option<Ordering>) {
        let this: u8 = self.place();
        let that: u8 = other.place();
        if this < that {
            Some(Ordering::Less)
        } else if this == that {
            Some(Ordering::Equal)
        } else {
            Some(Ordering::Greater)
        }
    }
}

impl PartialOrdSpecImpl for Rarity {
    open spec fn obeys_partial_cmp_spec() -> bool {
        true
    }

    open spec fn partial_cmp_spec(&self, other: &Rarity) -> Option<Ordering> {
        if self.rank() < other.rank() {
            Some(Ordering::Less)
        } else if self.rank() == other.rank() {
            Some(Ordering::Equal)
        } else {
            Some(Ordering::Greater)
        }
    }
}

} // verus!
