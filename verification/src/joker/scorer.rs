//! The scorer: the running chips and mult of a play, and the jokers that
//! change them.

use super::slate::{lemma_of_kind_len, of_kind};
use super::JokerSlateExt;
use super::{Joker, KindTag};
use crate::edition::capacity::capacity;
use crate::edition::Slate;
use crate::score::{Chips, Mult};
use rand::rngs::StdRng;
use vstd::prelude::*;

verus! {

/// The largest number that the misprint ability adds to the mult; the
/// smallest is zero.
pub const MISPRINT_MAX: u64 = 23;

/// Running chips and mult, as numbers.
pub struct Score {
    pub chips: nat,
    pub mult: nat,
}

/// The factor of the stencil ability: the free slots of the slate and the
/// stencils in it, the one that runs included.
pub open spec fn stencil_factor(base_cap: nat, jokers: Seq<Joker>) -> nat {
    (capacity(base_cap, jokers) - jokers.len() + of_kind(jokers, KindTag::Stencil).len()) as nat
}

impl KindTag {
    /// The score after a joker of this kind has run, in a slate that was
    /// made with `base_cap` and holds `jokers`. `roll` is the number drawn,
    /// for the one ability that draws one.
    ///
    /// - `Jimbo` adds four to the mult.
    /// - `Misprint` adds the number drawn to the mult.
    /// - `Stencil` multiplies the mult by [`stencil_factor`].
    pub open spec fn effect(
        self,
        base_cap: nat,
        jokers: Seq<Joker>,
        score: Score,
        roll: nat,
    ) -> Score {
        match self {
            KindTag::Jimbo => Score { chips: score.chips, mult: score.mult + 4 },
            KindTag::Misprint => Score { chips: score.chips, mult: score.mult + roll },
            KindTag::Stencil => Score {
                chips: score.chips,
                mult: score.mult * stencil_factor(base_cap, jokers),
            },
        }
    }
}

/// A larger number drawn and a larger mult before give a larger mult after,
/// whatever the ability; the chips do not depend on either.
pub proof fn lemma_effect_monotone(
    tag: KindTag,
    base_cap: nat,
    jokers: Seq<Joker>,
    low: Score,
    high: Score,
    low_roll: nat,
    high_roll: nat,
)
    requires
        low.chips == high.chips,
        low.mult <= high.mult,
        low_roll <= high_roll,
    ensures
        tag.effect(base_cap, jokers, low, low_roll).chips == tag.effect(
            base_cap,
            jokers,
            high,
            high_roll,
        ).chips,
        tag.effect(base_cap, jokers, low, low_roll).mult <= tag.effect(
            base_cap,
            jokers,
            high,
            high_roll,
        ).mult,
{
    let factor = stencil_factor(base_cap, jokers);
    assert(low.mult * factor <= high.mult * factor) by (nonlinear_arith)
        requires
            low.mult <= high.mult,
    ;
}

/// The accumulator of one scoring pass.
#[derive(Debug)]
#[non_exhaustive]
pub struct Scorer {
    pub jokers: Slate<Joker>,
    pub chips: Chips,
    pub mult: Mult,
}

impl Scorer {
    /// The running chips and mult.
    pub open spec fn score(&self) -> Score {
        Score { chips: self.chips.0 as nat, mult: self.mult.0 as nat }
    }

    /// The score after a joker of the given kind has run and drawn `roll`.
    pub open spec fn after(&self, tag: KindTag, roll: nat) -> Score {
        tag.effect(self.jokers.base_cap_spec(), self.jokers@, self.score(), roll)
    }

    /// Whether the effect of a joker of the given kind fits into the
    /// counters, whatever it draws.
    pub open spec fn fits(&self, tag: KindTag) -> bool {
        self.after(tag, MISPRINT_MAX as nat).mult <= u64::MAX
    }

    /// The score after the first `count` jokers of the slate have run, each
    /// on what the one before it left. `rolls[i]` is the number that joker
    /// `i` draws.
    pub open spec fn after_first(&self, count: nat, rolls: Seq<nat>) -> Score
        decreases count,
    {
        if count == 0 {
            self.score()
        } else {
            self.jokers@[count - 1].kind().effect(
                self.jokers.base_cap_spec(),
                self.jokers@,
                self.after_first((count - 1) as nat, rolls),
                rolls[count - 1],
            )
        }
    }

    /// The largest number drawn, once for each joker.
    pub open spec fn worst_rolls(&self) -> Seq<nat> {
        Seq::new(self.jokers@.len(), |i: int| MISPRINT_MAX as nat)
    }

    /// Whether a whole pass fits into the counters, whatever is drawn.
    pub open spec fn pass_fits(&self) -> bool {
        forall|count: nat|
            1 <= count <= self.jokers@.len() ==> (#[trigger] self.after_first(
                count,
                self.worst_rolls(),
            )).mult <= u64::MAX
    }

    /// Whether each joker has a roll and none is above [`MISPRINT_MAX`].
    pub open spec fn rolls_allowed(&self, rolls: Seq<nat>) -> bool {
        &&& rolls.len() == self.jokers@.len()
        &&& forall|i: int| 0 <= i < rolls.len() ==> #[trigger] rolls[i] <= MISPRINT_MAX
    }

    /// A scorer at the start of a pass: one chip and a mult of one.
    pub fn new(jokers: Slate<Joker>) -> (scorer: Scorer)
        ensures
            scorer.jokers == jokers,
            scorer.chips == Chips(1),
            scorer.mult == Mult(1),
    {
        Self { jokers, chips: Chips(1), mult: Mult(1) }
    }

    /// The mult that a joker of the given kind leaves if it starts from
    /// `mult` and draws the most, or `None` if the counter cannot hold it.
    fn worst_mult_after(&self, tag: KindTag, mult: u64) -> (after: Option<u64>)
        requires
            self.jokers.wf(),
        ensures
            after == if tag.effect(
                self.jokers.base_cap_spec(),
                self.jokers@,
                Score { chips: self.chips.0 as nat, mult: mult as nat },
                MISPRINT_MAX as nat,
            ).mult <= u64::MAX {
                Some(
                    tag.effect(
                        self.jokers.base_cap_spec(),
                        self.jokers@,
                        Score { chips: self.chips.0 as nat, mult: mult as nat },
                        MISPRINT_MAX as nat,
                    ).mult as u64,
                )
            } else {
                None
            },
    {
        match tag {
            KindTag::Jimbo => mult.checked_add(4),
            KindTag::Misprint => mult.checked_add(MISPRINT_MAX),
            KindTag::Stencil => {
                proof {
                    self.jokers.lemma_wf();
                    lemma_of_kind_len(self.jokers@, KindTag::Stencil);
                }
                let empty = self.jokers.free_len();
                let stencils = self.jokers.with_tag(KindTag::Stencil).len();
                mult.checked_mul((empty + stencils) as u64)
            },
        }
    }

    /// Whether a joker of the given kind can run: whether its effect fits
    /// into the counters whatever it draws.
    pub fn can_run(&self, tag: KindTag) -> (can: bool)
        requires
            self.jokers.wf(),
        ensures
            can == self.fits(tag),
    {
        self.worst_mult_after(tag, self.mult.0).is_some()
    }

    /// Whether a whole pass can run: whether it fits into the counters
    /// whatever is drawn.
    pub fn can_run_independent(&self) -> (can: bool)
        requires
            self.jokers.wf(),
        ensures
            can == self.pass_fits(),
    {
        let len = self.jokers.len();
        let mut mult = self.mult.0;
        let mut index: usize = 0;
        while index < len
            invariant
                self.jokers.wf(),
                len == self.jokers@.len(),
                index <= len,
                mult == self.after_first(index as nat, self.worst_rolls()).mult,
                self.chips.0 == self.after_first(index as nat, self.worst_rolls()).chips,
                forall|count: nat|
                    1 <= count <= index ==> (#[trigger] self.after_first(
                        count,
                        self.worst_rolls(),
                    )).mult <= u64::MAX,
            decreases len - index,
        {
            let joker = *self.jokers.get(index).unwrap();
            proof {
            }
            match self.worst_mult_after(joker.kind(), mult) {
                Some(after) => {
                    mult = after;
                },
                None => {
                    assert(self.after_first((index + 1) as nat, self.worst_rolls()).mult
                        > u64::MAX);
                    return false;
                },
            }
            index += 1;
        }
        true
    }

    /// Runs the jokers of the slate, each once, in the order in which they
    /// sit there. Each joker works on the score that the one before it left.
    pub fn run_independent(&mut self, rng: &mut StdRng)
        requires
            old(self).jokers.wf(),
            old(self).pass_fits(),
        ensures
            final(self).jokers == old(self).jokers,
            exists|rolls: Seq<nat>|
                old(self).rolls_allowed(rolls) && #[trigger] old(self).after_first(
                    rolls.len(),
                    rolls,
                ) == final(self).score(),
    {
        let ghost start = *self;
        let ghost mut rolls: Seq<nat> = Seq::empty();
        let len = self.jokers.len();
        let mut index: usize = 0;
        while index < len
            invariant
                start.jokers.wf(),
                start.pass_fits(),
                self.jokers == start.jokers,
                len == start.jokers@.len(),
                index <= len,
                rolls.len() == index,
                forall|i: int| 0 <= i < rolls.len() ==> #[trigger] rolls[i] <= MISPRINT_MAX,
                self.score() == start.after_first(index as nat, rolls),
            decreases len - index,
        {
            let joker = *self.jokers.get(index).unwrap();
            let ghost before = *self;
            proof {
                start.lemma_worst_rolls_bound(index as nat, rolls);
                lemma_effect_monotone(
                    joker.kind(),
                    start.jokers.base_cap_spec(),
                    start.jokers@,
                    self.score(),
                    start.after_first(index as nat, start.worst_rolls()),
                    MISPRINT_MAX as nat,
                    MISPRINT_MAX as nat,
                );
                assert(start.after_first((index + 1) as nat, start.worst_rolls()).mult <= u64::MAX);
            }
            joker.run_independent(self, rng);
            proof {
                let roll = choose|roll: nat|
                    roll <= MISPRINT_MAX && #[trigger] before.after(joker.kind(), roll)
                        == self.score();
                let longer = rolls.push(roll);
                start.lemma_only_misprints_draw(index as nat, rolls, longer);
                rolls = longer;
            }
            index += 1;
        }
    }

    /// No ability of the catalog changes the chips.
    pub proof fn lemma_chips_kept(&self, count: nat, rolls: Seq<nat>)
        ensures
            self.after_first(count, rolls).chips == self.score().chips,
        decreases count,
    {
        if count > 0 {
            self.lemma_chips_kept((count - 1) as nat, rolls);
        }
    }

    /// The order of the jokers matters. A plain joker in front of a stencil
    /// has its four mult multiplied; behind the stencil it does not.
    pub proof fn lemma_order_matters(&self, rolls: Seq<nat>)
        requires
            self.jokers@.len() >= 2,
        ensures
            self.jokers@[0].kind() == KindTag::Jimbo && self.jokers@[1].kind() == KindTag::Stencil
                ==> self.after_first(2, rolls).mult == (self.score().mult + 4) * stencil_factor(
                self.jokers.base_cap_spec(),
                self.jokers@,
            ),
            self.jokers@[0].kind() == KindTag::Stencil && self.jokers@[1].kind() == KindTag::Jimbo
                ==> self.after_first(2, rolls).mult == self.score().mult * stencil_factor(
                self.jokers.base_cap_spec(),
                self.jokers@,
            ) + 4,
    {
        reveal_with_fuel(Scorer::after_first, 3);
    }

    /// Only the misprints among the jokers that ran draw a number: the rolls
    /// of the other jokers, and of the jokers that did not run, change
    /// nothing. The same rolls in the same slate give the same score.
    pub proof fn lemma_only_misprints_draw(&self, count: nat, rolls: Seq<nat>, others: Seq<nat>)
        requires
            count <= self.jokers@.len(),
            forall|i: int|
                0 <= i < count && self.jokers@[i].kind() == KindTag::Misprint ==> rolls[i]
                    == others[i],
        ensures
            self.after_first(count, rolls) == self.after_first(count, others),
        decreases count,
    {
        if count > 0 {
            self.lemma_only_misprints_draw((count - 1) as nat, rolls, others);
        }
    }

    /// No rolls lead to a larger mult than the largest ones, and the chips
    /// are the same whatever is drawn.
    pub proof fn lemma_worst_rolls_bound(&self, count: nat, rolls: Seq<nat>)
        requires
            count <= self.jokers@.len(),
            count <= rolls.len(),
            forall|i: int| 0 <= i < count ==> #[trigger] rolls[i] <= MISPRINT_MAX,
        ensures
            self.after_first(count, rolls).chips == self.after_first(
                count,
                self.worst_rolls(),
            ).chips,
            self.after_first(count, rolls).mult <= self.after_first(
                count,
                self.worst_rolls(),
            ).mult,
        decreases count,
    {
        if count > 0 {
            self.lemma_worst_rolls_bound((count - 1) as nat, rolls);
            lemma_effect_monotone(
                self.jokers@[count - 1].kind(),
                self.jokers.base_cap_spec(),
                self.jokers@,
                self.after_first((count - 1) as nat, rolls),
                self.after_first((count - 1) as nat, self.worst_rolls()),
                rolls[count - 1],
                self.worst_rolls()[count - 1],
            );
        }
    }
}

} // verus!
