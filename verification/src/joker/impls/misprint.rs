//! The misprint.

use crate::joker::random::random_in_range;
use crate::joker::{JokerKind, KindTag, Rarity, Scorer, MISPRINT_MAX};
use crate::money::Money;
use rand::rngs::StdRng;
use vstd::prelude::*;

verus! {

/// The misprint: a number of mult that is drawn anew each time, from zero
/// to [`MISPRINT_MAX`].
#[derive(Debug)]
pub struct MisprintJoker;

impl MisprintJoker {
    /// Adds the number drawn to the mult. The sum must fit into the counter.
    pub fn add_roll(scorer: &mut Scorer, roll: u64)
        requires
            roll <= MISPRINT_MAX,
            old(scorer).after(KindTag::Misprint, roll as nat).mult <= u64::MAX,
        ensures
            final(scorer).jokers == old(scorer).jokers,
            final(scorer).score() == old(scorer).after(KindTag::Misprint, roll as nat),
    {
        scorer.mult = scorer.mult + roll;
    }
}

impl JokerKind for MisprintJoker {
    open spec fn tag_spec() -> KindTag {
        KindTag::Misprint
    }

    fn tag() -> (tag: KindTag) {
        KindTag::Misprint
    }

    fn name(&self) -> (name: &'static str) {
        "Misprint"
    }

    fn rarity(&self) -> (rarity: Rarity) {
        Rarity::Common
    }

    fn price(&self) -> (price: Money) {
        Money(4)
    }

    fn run_independent(&self, scorer: &mut Scorer, rng: &mut StdRng) {
        let roll = random_in_range(rng, 0, MISPRINT_MAX);
        MisprintJoker::add_roll(scorer, roll);
    }
}

} // verus!
