//! Planets, the consumables that level up one hand type each.

use crate::hand::HandType;
use vstd::prelude::*;

verus! {

/// A planet card. Each planet belongs to exactly one hand type, and each
/// hand type has exactly one planet.
#[derive(Debug, Copy, Clone, PartialEq, Eq, Structural)]
pub enum Planet {
    Pluto,
    Mercury,
    Uranus,
    Venus,
    Saturn,
    Jupiter,
    Earth,
    Mars,
    Neptune,
    PlanetX,
    Ceres,
    Eris,
}

impl Planet {
    /// The hand type that the planet levels up.
    pub open spec fn hand_type_spec(self) -> HandType {
        match self {
            Planet::Pluto => HandType::HighCard,
            Planet::Mercury => HandType::Pair,
            Planet::Uranus => HandType::TwoPair,
            Planet::Venus => HandType::ThreeOfAKind,
            Planet::Saturn => HandType::Straight,
            Planet::Jupiter => HandType::Flush,
            Planet::Earth => HandType::FullHouse,
            Planet::Mars => HandType::FourOfAKind,
            Planet::Neptune => HandType::StraightFlush,
            Planet::PlanetX => HandType::FiveOfAKind,
            Planet::Ceres => HandType::FlushHouse,
            Planet::Eris => HandType::FlushFive,
        }
    }

    /// The planet of a hand type.
    pub open spec fn of(hand_type: HandType) -> Planet {
        match hand_type {
            HandType::HighCard => Planet::Pluto,
            HandType::Pair => Planet::Mercury,
            HandType::TwoPair => Planet::Uranus,
            HandType::ThreeOfAKind => Planet::Venus,
            HandType::Straight => Planet::Saturn,
            HandType::Flush => Planet::Jupiter,
            HandType::FullHouse => Planet::Earth,
            HandType::FourOfAKind => Planet::Mars,
            HandType::StraightFlush => Planet::Neptune,
            HandType::FiveOfAKind => Planet::PlanetX,
            HandType::FlushHouse => Planet::Ceres,
            HandType::FlushFive => Planet::Eris,
        }
    }

    /// The planets in the order of their hand types.
    pub fn variants() -> (planets: Vec<Planet>)
        ensures
            planets@ == HandType::all().map_values(|hand_type: HandType| Planet::of(hand_type)),
    {
        let planets = vec![
            Planet::Pluto,
            Planet::Mercury,
            Planet::Uranus,
            Planet::Venus,
            Planet::Saturn,
            Planet::Jupiter,
            Planet::Earth,
            Planet::Mars,
            Planet::Neptune,
            Planet::PlanetX,
            Planet::Ceres,
            Planet::Eris,
        ];
        assert(planets@ =~= HandType::all().map_values(
            |hand_type: HandType| Planet::of(hand_type),
        ));
        planets
    }

    #[verifier::when_used_as_spec(hand_type_spec)]
    pub fn hand_type(self) -> (hand_type: HandType)
        ensures
            hand_type == self.hand_type_spec(),
    {
        match self {
            Planet::Pluto => HandType::HighCard,
            Planet::Mercury => HandType::Pair,
            Planet::Uranus => HandType::TwoPair,
            Planet::Venus => HandType::ThreeOfAKind,
            Planet::Saturn => HandType::Straight,
            Planet::Jupiter => HandType::Flush,
            Planet::Earth => HandType::FullHouse,
            Planet::Mars => HandType::FourOfAKind,
            Planet::Neptune => HandType::StraightFlush,
            Planet::PlanetX => HandType::FiveOfAKind,
            Planet::Ceres => HandType::FlushHouse,
            Planet::Eris => HandType::FlushFive,
        }
    }
}

/// Planets and hand types correspond one to one.
pub proof fn lemma_planet_hand_type_bijection(planet: Planet, hand_type: HandType)
    ensures
        Planet::of(planet.hand_type_spec()) == planet,
        Planet::of(hand_type).hand_type_spec() == hand_type,
{
}

} // verus!
