//! The joker stencil.

use crate::joker::slate::lemma_of_kind_len;
use crate::joker::{JokerKind, JokerSlateExt, KindTag, Rarity, Scorer};
use crate::money::Money;
use rand::rngs::StdRng;
use vstd::prelude::*;

verus! {

/// The joker stencil: the mult times the number of free joker slots, where
/// each stencil in the slate counts as a free slot.
#[derive(Debug)]
pub struct StencilJoker;

impl JokerKind for StencilJoker {
    open spec fn tag_spec() -> KindTag {
        KindTag::Stencil
    }

    fn tag() -> (tag: KindTag) {
        KindTag::Stencil
    }

    fn name(&self) -> (name: &'static str) {
        "Joker Stencil"
    }

    fn rarity(&self) -> (rarity: Rarity) {
        Rarity::Uncommon
    }

    fn price(&self) -> (price: Money) {
        Money(8)
    }

    fn run_independent(&self, scorer: &mut Scorer, rng: &mut StdRng)
        ensures
            final(scorer).score() == old(scorer).after(KindTag::Stencil, 0),
    {
        let _ = rng;
        proof {
            scorer.jokers.lemma_wf();
            lemma_of_kind_len(scorer.jokers@, KindTag::Stencil);
        }
        let empty = scorer.jokers.free_len();
        let stencils = scorer.jokers.with_tag(KindTag::Stencil).len();
        let mult = empty + stencils;

        scorer.mult = scorer.mult * (mult as u64);
    }
}

} // verus!
