//! Blinds, the rounds of an ante.

use crate::money::Money;
use vstd::prelude::*;

verus! {

#[derive(Debug, Copy, Clone, PartialEq, Eq, Structural)]
pub enum Blind {
    Small,
    Big,
    Boss(Boss),
}

/// The boss of a boss blind.
#[derive(Debug, Copy, Clone, PartialEq, Eq, Structural)]
pub enum Boss {
    Hook,
    Ox,
    House,
    Wall,
    Wheel,
    Arm,
    Club,
    Fish,
    Psychic,
    Goad,
    Water,
    Window,
    Manacle,
    Eye,
    Mouth,
    Plant,
    Serpent,
    Pillar,
    Needle,
    Head,
    Tooth,
    Flint,
    Mark,
}

impl Blind {
    /// The money paid for beating the blind: three for the small blind, four
    /// for the big blind, five for a boss.
    pub open spec fn reward_spec(self) -> Money {
        match self {
            Blind::Small => Money(3),
            Blind::Big => Money(4),
            Blind::Boss(_) => Money(5),
        }
    }

    /// The factor that the blind puts on the score to beat: two for the
    /// small blind, three for the big blind, five for a boss.
    pub open spec fn score_mult_spec(self) -> nat {
        match self {
            Blind::Small => 2,
            Blind::Big => 3,
            Blind::Boss(_) => 5,
        }
    }

    #[verifier::when_used_as_spec(reward_spec)]
    pub fn reward(self) -> (reward: Money)
        ensures
            reward == self.reward_spec(),
    {
        match self {
            Blind::Small => Money(3),
            Blind::Big => Money(4),
            Blind::Boss(_) => Money(5),
        }
    }

    #[allow(dead_code)]
    fn score_mult(self) -> (factor: usize)
        ensures
            factor == self.score_mult_spec(),
    {
        match self {
            Blind::Small => 2,
            Blind::Big => 3,
            Blind::Boss(_) => 5,
        }
    }
}

} // verus!
