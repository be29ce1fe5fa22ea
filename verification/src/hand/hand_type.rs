//! The twelve hand types and their score tables.

use crate::score::{Chips, Mult};
use vstd::prelude::*;

verus! {

/// A scoring category of a played hand, from the weakest to the strongest.
#[derive(Debug, Copy, Clone, PartialEq, Eq, PartialOrd, Ord, Hash, Structural)]
pub enum HandType {
    HighCard,
    Pair,
    TwoPair,
    ThreeOfAKind,
    Straight,
    Flush,
    FullHouse,
    FourOfAKind,
    StraightFlush,
    FiveOfAKind,
    FlushHouse,
    FlushFive,
}

impl HandType {
    /// Chips and mult of the hand type at level one.
    pub open spec fn base_score_spec(self) -> (Chips, Mult) {
        match self {
            HandType::HighCard => (Chips(5), Mult(1)),
            HandType::Pair => (Chips(10), Mult(2)),
            HandType::TwoPair => (Chips(20), Mult(2)),
            HandType::ThreeOfAKind => (Chips(30), Mult(3)),
            HandType::Straight => (Chips(30), Mult(4)),
            HandType::Flush => (Chips(35), Mult(4)),
            HandType::FullHouse => (Chips(40), Mult(4)),
            HandType::FourOfAKind => (Chips(60), Mult(7)),
            HandType::StraightFlush => (Chips(100), Mult(8)),
            HandType::FiveOfAKind => (Chips(120), Mult(12)),
            HandType::FlushHouse => (Chips(140), Mult(14)),
            HandType::FlushFive => (Chips(160), Mult(16)),
        }
    }

    /// Chips and mult that each level above the first adds.
    pub open spec fn addl_score_per_level_spec(self) -> (Chips, Mult) {
        match self {
            HandType::HighCard => (Chips(10), Mult(1)),
            HandType::Pair => (Chips(10), Mult(2)),
            HandType::TwoPair => (Chips(20), Mult(1)),
            HandType::ThreeOfAKind => (Chips(20), Mult(2)),
            HandType::Straight => (Chips(30), Mult(3)),
            HandType::Flush => (Chips(15), Mult(2)),
            HandType::FullHouse => (Chips(25), Mult(2)),
            HandType::FourOfAKind => (Chips(30), Mult(3)),
            HandType::StraightFlush => (Chips(40), Mult(4)),
            HandType::FiveOfAKind => (Chips(35), Mult(3)),
            HandType::FlushHouse => (Chips(40), Mult(4)),
            HandType::FlushFive => (Chips(50), Mult(3)),
        }
    }

    /// The score of the hand type at a level: the base score plus the
    /// per-level bonus once for each level above the first.
    pub open spec fn score_at(self, level: nat) -> (nat, nat)
        recommends
            level >= 1,
    {
        let (chips, mult) = self.base_score_spec();
        let (addl_chips, addl_mult) = self.addl_score_per_level_spec();
        (
            (chips.0 + addl_chips.0 * (level - 1)) as nat,
            (mult.0 + addl_mult.0 * (level - 1)) as nat,
        )
    }

    /// The two strongest hand types are secret: they stay hidden until they
    /// have been played.
    pub open spec fn is_secret_spec(self) -> bool {
        self is FlushHouse || self is FlushFive
    }

    /// Every hand type once, from the weakest to the strongest.
    pub open spec fn all() -> Seq<HandType> {
        seq![
            HandType::HighCard,
            HandType::Pair,
            HandType::TwoPair,
            HandType::ThreeOfAKind,
            HandType::Straight,
            HandType::Flush,
            HandType::FullHouse,
            HandType::FourOfAKind,
            HandType::StraightFlush,
            HandType::FiveOfAKind,
            HandType::FlushHouse,
            HandType::FlushFive,
        ]
    }

    pub fn variants() -> (hand_types: Vec<HandType>)
        ensures
            hand_types@ == HandType::all(),
    {
        vec![
            HandType::HighCard,
            HandType::Pair,
            HandType::TwoPair,
            HandType::ThreeOfAKind,
            HandType::Straight,
            HandType::Flush,
            HandType::FullHouse,
            HandType::FourOfAKind,
            HandType::StraightFlush,
            HandType::FiveOfAKind,
            HandType::FlushHouse,
            HandType::FlushFive,
        ]
    }

    #[verifier::when_used_as_spec(base_score_spec)]
    pub fn base_score(self) -> (score: (Chips, Mult))
        ensures
            score == self.base_score_spec(),
    {
        match self {
            HandType::HighCard => (Chips(5), Mult(1)),
            HandType::Pair => (Chips(10), Mult(2)),
            HandType::TwoPair => (Chips(20), Mult(2)),
            HandType::ThreeOfAKind => (Chips(30), Mult(3)),
            HandType::Straight => (Chips(30), Mult(4)),
            HandType::Flush => (Chips(35), Mult(4)),
            HandType::FullHouse => (Chips(40), Mult(4)),
            HandType::FourOfAKind => (Chips(60), Mult(7)),
            HandType::StraightFlush => (Chips(100), Mult(8)),
            HandType::FiveOfAKind => (Chips(120), Mult(12)),
            HandType::FlushHouse => (Chips(140), Mult(14)),
            HandType::FlushFive => (Chips(160), Mult(16)),
        }
    }

    #[verifier::when_used_as_spec(addl_score_per_level_spec)]
    pub fn addl_score_per_level(self) -> (score: (Chips, Mult))
        ensures
            score == self.addl_score_per_level_spec(),
    {
        match self {
            HandType::HighCard => (Chips(10), Mult(1)),
            HandType::Pair => (Chips(10), Mult(2)),
            HandType::TwoPair => (Chips(20), Mult(1)),
            HandType::ThreeOfAKind => (Chips(20), Mult(2)),
            HandType::Straight => (Chips(30), Mult(3)),
            HandType::Flush => (Chips(15), Mult(2)),
            HandType::FullHouse => (Chips(25), Mult(2)),
            HandType::FourOfAKind => (Chips(30), Mult(3)),
            HandType::StraightFlush => (Chips(40), Mult(4)),
            HandType::FiveOfAKind => (Chips(35), Mult(3)),
            HandType::FlushHouse => (Chips(40), Mult(4)),
            HandType::FlushFive => (Chips(50), Mult(3)),
        }
    }

    #[verifier::when_used_as_spec(is_secret_spec)]
    pub fn is_secret(self) -> (secret: bool)
        ensures
            secret == self.is_secret_spec(),
    {
        matches!(self, HandType::FlushHouse | HandType::FlushFive)
    }
}

/// Every hand type occurs in [`HandType::all`].
pub proof fn lemma_all_hand_types_listed(hand_type: HandType)
    ensures
        HandType::all().contains(hand_type),
{
    let all = HandType::all();
    match hand_type {
        HandType::HighCard => assert(all[0] == hand_type),
        HandType::Pair => assert(all[1] == hand_type),
        HandType::TwoPair => assert(all[2] == hand_type),
        HandType::ThreeOfAKind => assert(all[3] == hand_type),
        HandType::Straight => assert(all[4] == hand_type),
        HandType::Flush => assert(all[5] == hand_type),
        HandType::FullHouse => assert(all[6] == hand_type),
        HandType::FourOfAKind => assert(all[7] == hand_type),
        HandType::StraightFlush => assert(all[8] == hand_type),
        HandType::FiveOfAKind => assert(all[9] == hand_type),
        HandType::FlushHouse => assert(all[10] == hand_type),
        HandType::FlushFive => assert(all[11] == hand_type),
    }
}

} // verus!
