//! The plain joker.

use crate::joker::{JokerKind, KindTag, Rarity, Scorer};
use crate::money::Money;
use rand::rngs::StdRng;
use vstd::prelude::*;

verus! {

/// The plain joker: four more mult.
#[derive(Debug)]
pub struct JimboJoker;

impl JokerKind for JimboJoker {
    open spec fn tag_spec() -> KindTag {
        KindTag::Jimbo
    }

    fn tag() -> (tag: KindTag) {
        KindTag::Jimbo
    }

    fn name(&self) -> (name: &'static str) {
        "Joker"
    }

    fn rarity(&self) -> (rarity: Rarity) {
        Rarity::Common
    }

    fn price(&self) -> (price: Money) {
        Money(2)
    }

    fn run_independent(&self, scorer: &mut Scorer, rng: &mut StdRng)
        ensures
            final(scorer).score() == old(scorer).after(KindTag::Jimbo, 0),
    {
        let _ = rng;
        scorer.mult = scorer.mult + 4;
    }
}

} // verus!
