//! Leveling state: how often each hand type was leveled up and played.

use super::hand_type::HandType;
use crate::planet::Planet;
use crate::score::{Chips, ChipsAllowMul, Mult};
use vstd::prelude::*;

verus! {

/// Level and play count of one hand type, as numbers.
pub struct Progress {
    pub level: nat,
    pub plays: nat,
}

/// What a [`HandTypeState`] shows: a hand type with its level and play count.
pub struct HandProgress {
    pub hand_type: HandType,
    pub level: nat,
    pub plays: nat,
}

/// The highest level and the highest play count that are kept: both counters
/// stop there instead of wrapping around.
pub open spec fn counter_max() -> nat {
    u16::MAX as nat
}

/// A counter after one more step, held at [`counter_max`].
pub open spec fn bumped(count: nat) -> nat {
    if count < counter_max() {
        count + 1
    } else {
        count
    }
}

impl Progress {
    /// A hand type that was never leveled up nor played.
    pub open spec fn fresh() -> Progress {
        Progress { level: 1, plays: 0 }
    }

    pub open spec fn level_up(self) -> Progress {
        Progress { level: bumped(self.level), plays: self.plays }
    }

    pub open spec fn plays_up(self) -> Progress {
        Progress { level: self.level, plays: bumped(self.plays) }
    }

    /// The snapshot of a hand type in this state.
    pub open spec fn of(self, hand_type: HandType) -> HandProgress {
        HandProgress { hand_type, level: self.level, plays: self.plays }
    }
}

impl HandProgress {
    /// Secret hand types are locked until they have been played once; the
    /// others are never locked.
    pub open spec fn is_unlocked(self) -> bool {
        !self.hand_type.is_secret_spec() || self.plays > 0
    }

    /// Chips and mult that the hand type scores at its level.
    pub open spec fn score(self) -> (nat, nat) {
        self.hand_type.score_at(self.level)
    }
}

#[derive(Debug, Clone, Copy)]
struct InnerState {
    level: u16,
    plays: u16,
}

impl View for InnerState {
    type V = Progress;

    closed spec fn view(&self) -> Progress {
        Progress { level: self.level as nat, plays: self.plays as nat }
    }
}

impl InnerState {
    #[verifier::type_invariant]
    spec fn levels_start_at_one(self) -> bool {
        self.level >= 1
    }

    fn level_up(self) -> (next: InnerState)
        ensures
            next@ == self@.level_up(),
    {
        InnerState { level: self.level.saturating_add(1), plays: self.plays }
    }

    fn plays_up(self) -> (next: InnerState)
        ensures
            next@ == self@.plays_up(),
    {
        proof {
            use_type_invariant(&self);
        }
        InnerState { level: self.level, plays: self.plays.saturating_add(1) }
    }
}

impl Default for InnerState {
    fn default() -> (state: InnerState)
        ensures
            state@ == Progress::fresh(),
    {
        InnerState { level: 1, plays: 0 }
    }
}

/// The leveling state of every hand type.
///
/// A value is never changed in place: leveling up and playing return the
/// state that follows, so no caller ever sees a state in which only part of
/// a change was made.
#[derive(Debug, Clone, Copy)]
pub struct HandTypeStates {
    high_card: InnerState,
    pair: InnerState,
    two_pair: InnerState,
    three_of_a_kind: InnerState,
    straight: InnerState,
    flush: InnerState,
    full_house: InnerState,
    four_of_a_kind: InnerState,
    straight_flush: InnerState,
    five_of_a_kind: InnerState,
    flush_house: InnerState,
    flush_five: InnerState,
}

impl HandTypeStates {
    spec fn state(&self, hand_type: HandType) -> InnerState {
        match hand_type {
            HandType::HighCard => self.high_card,
            HandType::Pair => self.pair,
            HandType::TwoPair => self.two_pair,
            HandType::ThreeOfAKind => self.three_of_a_kind,
            HandType::Straight => self.straight,
            HandType::Flush => self.flush,
            HandType::FullHouse => self.full_house,
            HandType::FourOfAKind => self.four_of_a_kind,
            HandType::StraightFlush => self.straight_flush,
            HandType::FiveOfAKind => self.five_of_a_kind,
            HandType::FlushHouse => self.flush_house,
            HandType::FlushFive => self.flush_five,
        }
    }
}

impl View for HandTypeStates {
    type V = Map<HandType, Progress>;

    /// The progress of each hand type. Every hand type has an entry.
    closed spec fn view(&self) -> Map<HandType, Progress> {
        Map::new(|hand_type: HandType| true, |hand_type: HandType| self.state(hand_type)@)
    }
}

/// The state in which no hand type was leveled up or played.
pub open spec fn fresh_states() -> Map<HandType, Progress> {
    Map::new(|hand_type: HandType| true, |hand_type: HandType| Progress::fresh())
}

/// The states after one level-up of `hand_type`.
pub open spec fn leveled_up(states: Map<HandType, Progress>, hand_type: HandType) -> Map<
    HandType,
    Progress,
> {
    states.insert(hand_type, states[hand_type].level_up())
}

/// The states after one play of `hand_type`.
pub open spec fn played(states: Map<HandType, Progress>, hand_type: HandType) -> Map<
    HandType,
    Progress,
> {
    states.insert(hand_type, states[hand_type].plays_up())
}

/// The states after one level-up of every hand type.
pub open spec fn all_leveled_up(states: Map<HandType, Progress>) -> Map<HandType, Progress> {
    Map::new(|hand_type: HandType| true, |hand_type: HandType| states[hand_type].level_up())
}

impl Default for HandTypeStates {
    fn default() -> (states: HandTypeStates)
        ensures
            states@ == fresh_states(),
    {
        HandTypeStates {
            high_card: InnerState::default(),
            pair: InnerState::default(),
            two_pair: InnerState::default(),
            three_of_a_kind: InnerState::default(),
            straight: InnerState::default(),
            flush: InnerState::default(),
            full_house: InnerState::default(),
            four_of_a_kind: InnerState::default(),
            straight_flush: InnerState::default(),
            five_of_a_kind: InnerState::default(),
            flush_house: InnerState::default(),
            flush_five: InnerState::default(),
        }
    }
}

impl HandTypeStates {
    /// Every hand type has an entry, and neither of its counters is past
    /// [`counter_max`].
    pub proof fn lemma_view_total(&self, hand_type: HandType)
        ensures
            self@.dom().contains(hand_type),
            self@[hand_type].level <= counter_max(),
            self@[hand_type].plays <= counter_max(),
    {
    }

    pub fn high_card(&self) -> (state: HandTypeState)
        ensures
            state@ == self@[HandType::HighCard].of(HandType::HighCard),
    {
        self.get(HandType::HighCard)
    }

    pub fn pair(&self) -> (state: HandTypeState)
        ensures
            state@ == self@[HandType::Pair].of(HandType::Pair),
    {
        self.get(HandType::Pair)
    }

    pub fn two_pair(&self) -> (state: HandTypeState)
        ensures
            state@ == self@[HandType::TwoPair].of(HandType::TwoPair),
    {
        self.get(HandType::TwoPair)
    }

    pub fn three_of_a_kind(&self) -> (state: HandTypeState)
        ensures
            state@ == self@[HandType::ThreeOfAKind].of(HandType::ThreeOfAKind),
    {
        self.get(HandType::ThreeOfAKind)
    }

    pub fn straight(&self) -> (state: HandTypeState)
        ensures
            state@ == self@[HandType::Straight].of(HandType::Straight),
    {
        self.get(HandType::Straight)
    }

    pub fn flush(&self) -> (state: HandTypeState)
        ensures
            state@ == self@[HandType::Flush].of(HandType::Flush),
    {
        self.get(HandType::Flush)
    }

    pub fn full_house(&self) -> (state: HandTypeState)
        ensures
            state@ == self@[HandType::FullHouse].of(HandType::FullHouse),
    {
        self.get(HandType::FullHouse)
    }

    pub fn four_of_a_kind(&self) -> (state: HandTypeState)
        ensures
            state@ == self@[HandType::FourOfAKind].of(HandType::FourOfAKind),
    {
        self.get(HandType::FourOfAKind)
    }

    pub fn straight_flush(&self) -> (state: HandTypeState)
        ensures
            state@ == self@[HandType::StraightFlush].of(HandType::StraightFlush),
    {
        self.get(HandType::StraightFlush)
    }

    pub fn five_of_a_kind(&self) -> (state: HandTypeState)
        ensures
            state@ == self@[HandType::FiveOfAKind].of(HandType::FiveOfAKind),
    {
        self.get(HandType::FiveOfAKind)
    }

    pub fn flush_house(&self) -> (state: HandTypeState)
        ensures
            state@ == self@[HandType::FlushHouse].of(HandType::FlushHouse),
    {
        self.get(HandType::FlushHouse)
    }

    pub fn flush_five(&self) -> (state: HandTypeState)
        ensures
            state@ == self@[HandType::FlushFive].of(HandType::FlushFive),
    {
        self.get(HandType::FlushFive)
    }

    fn get_state(&self, hand_type: HandType) -> (state: InnerState)
        ensures
            state == self.state(hand_type),
    {
        match hand_type {
            HandType::HighCard => self.high_card,
            HandType::Pair => self.pair,
            HandType::TwoPair => self.two_pair,
            HandType::ThreeOfAKind => self.three_of_a_kind,
            HandType::Straight => self.straight,
            HandType::Flush => self.flush,
            HandType::FullHouse => self.full_house,
            HandType::FourOfAKind => self.four_of_a_kind,
            HandType::StraightFlush => self.straight_flush,
            HandType::FiveOfAKind => self.five_of_a_kind,
            HandType::FlushHouse => self.flush_house,
            HandType::FlushFive => self.flush_five,
        }
    }

    fn set_state(&mut self, hand_type: HandType, state: InnerState)
        ensures
            final(self).state(hand_type) == state,
            forall|other: HandType|
                other != hand_type ==> final(self).state(other) == old(self).state(other),
    {
        match hand_type {
            HandType::HighCard => self.high_card = state,
            HandType::Pair => self.pair = state,
            HandType::TwoPair => self.two_pair = state,
            HandType::ThreeOfAKind => self.three_of_a_kind = state,
            HandType::Straight => self.straight = state,
            HandType::Flush => self.flush = state,
            HandType::FullHouse => self.full_house = state,
            HandType::FourOfAKind => self.four_of_a_kind = state,
            HandType::StraightFlush => self.straight_flush = state,
            HandType::FiveOfAKind => self.five_of_a_kind = state,
            HandType::FlushHouse => self.flush_house = state,
            HandType::FlushFive => self.flush_five = state,
        }
    }

    /// A snapshot of one hand type.
    pub fn get(&self, hand_type: HandType) -> (state: HandTypeState)
        ensures
            state@ == self@[hand_type].of(hand_type),
    {
        HandTypeState { hand_type, inner: self.get_state(hand_type) }
    }

    /// Levels up the hand type of the planet.
    pub fn use_planet(&self, planet: Planet) -> (next: HandTypeStates)
        ensures
            next@ == leveled_up(self@, planet.hand_type_spec()),
    {
        self.level_up(planet.hand_type())
    }

    /// Levels up every hand type at once.
    pub fn use_black_hole(&self) -> (next: HandTypeStates)
        ensures
            next@ == all_leveled_up(self@),
    {
        self.update_all(InnerState::level_up)
    }

    pub fn level_up(&self, hand_type: HandType) -> (next: HandTypeStates)
        ensures
            next@ == leveled_up(self@, hand_type),
    {
        self.update(hand_type, InnerState::level_up)
    }

    pub fn plays_up(&self, hand_type: HandType) -> (next: HandTypeStates)
        ensures
            next@ == played(self@, hand_type),
    {
        self.update(hand_type, InnerState::plays_up)
    }

    fn update<F: FnOnce(InnerState) -> InnerState>(&self, hand_type: HandType, f: F) -> (next:
        HandTypeStates)
        requires
            f.requires((self.state(hand_type),)),
        ensures
            f.ensures((self.state(hand_type),), next.state(hand_type)),
            forall|other: HandType| other != hand_type ==> next.state(other) == self.state(other),
    {
        let old_state = self.get_state(hand_type);
        let new_state = f(old_state);

        let mut this = self.clone();
        this.set_state(hand_type, new_state);
        this
    }

    fn update_all<F: Fn(InnerState) -> InnerState>(&self, f: F) -> (next: HandTypeStates)
        requires
            forall|state: InnerState| f.requires((state,)),
        ensures
            forall|hand_type: HandType|
                f.ensures((self.state(hand_type),), #[trigger] next.state(hand_type)),
    {
        HandTypeStates {
            high_card: f(self.high_card),
            pair: f(self.pair),
            two_pair: f(self.two_pair),
            three_of_a_kind: f(self.three_of_a_kind),
            straight: f(self.straight),
            flush: f(self.flush),
            full_house: f(self.full_house),
            four_of_a_kind: f(self.four_of_a_kind),
            straight_flush: f(self.straight_flush),
            five_of_a_kind: f(self.five_of_a_kind),
            flush_house: f(self.flush_house),
            flush_five: f(self.flush_five),
        }
    }
}

/// A snapshot of one hand type's leveling state.
#[derive(Debug, Clone, Copy)]
pub struct HandTypeState {
    hand_type: HandType,
    inner: InnerState,
}

impl View for HandTypeState {
    type V = HandProgress;

    closed spec fn view(&self) -> HandProgress {
        self.inner@.of(self.hand_type)
    }
}

impl HandTypeState {
    pub fn hand_type(self) -> (hand_type: HandType)
        ensures
            hand_type == self@.hand_type,
    {
        self.hand_type
    }

    pub fn is_unlocked(self) -> (unlocked: bool)
        ensures
            unlocked == self@.is_unlocked(),
    {
        !self.hand_type.is_secret() || self.inner.plays > 0
    }

    pub fn level(self) -> (level: u16)
        ensures
            level == self@.level,
            level >= 1,
    {
        proof {
            use_type_invariant(&self.inner);
        }
        self.inner.level
    }

    pub fn plays(self) -> (plays: u16)
        ensures
            plays == self@.plays,
    {
        self.inner.plays
    }

    /// The chips and mult of the hand type at its level.
    pub fn score(self) -> (score: (Chips, Mult))
        ensures
            score.0.0 == self@.score().0,
            score.1.0 == self@.score().1,
    {
        proof {
            use_type_invariant(&self.inner);
        }
        let (chips, mult) = self.hand_type.base_score();
        let (addl_chips, addl_mult) = self.hand_type.addl_score_per_level();
        let addl_times = self.inner.level as u64 - 1;
        assert(addl_chips.0 * addl_times <= 50 * 65535 && addl_mult.0 * addl_times <= 4 * 65535)
            by (nonlinear_arith)
            requires
                addl_chips.0 <= 50,
                addl_mult.0 <= 4,
                addl_times <= 65535,
        ;

        (
            chips + (ChipsAllowMul::new(addl_chips) * addl_times).finish(),
            mult + (addl_mult * addl_times),
        )
    }
}

/// Reading a hand type twice from states that did not change shows the same
/// level, the same play count and the same score.
pub proof fn lemma_reads_agree(
    states: HandTypeStates,
    hand_type: HandType,
    first: HandTypeState,
    second: HandTypeState,
)
    requires
        first@ == states@[hand_type].of(hand_type),
        second@ == states@[hand_type].of(hand_type),
    ensures
        first@.level == second@.level,
        first@.plays == second@.plays,
        first@.score() == second@.score(),
        first@.is_unlocked() == second@.is_unlocked(),
{
}

/// A hand type that is not secret is unlocked from the start. A secret one is
/// locked while it has no plays, and one play unlocks it.
pub proof fn lemma_secret_unlocks_with_first_play(
    states: Map<HandType, Progress>,
    hand_type: HandType,
)
    requires
        states[hand_type].plays == 0,
    ensures
        states[hand_type].of(hand_type).is_unlocked() <==> !hand_type.is_secret_spec(),
        played(states, hand_type)[hand_type].of(hand_type).is_unlocked(),
{
}

/// Leveling up and playing one hand type leave every other hand type as it
/// was, and neither touches the other counter.
pub proof fn lemma_steps_are_local(
    states: Map<HandType, Progress>,
    hand_type: HandType,
    other: HandType,
)
    requires
        other != hand_type,
    ensures
        leveled_up(states, hand_type)[other] == states[other],
        played(states, hand_type)[other] == states[other],
        leveled_up(states, hand_type)[hand_type].plays == states[hand_type].plays,
        played(states, hand_type)[hand_type].level == states[hand_type].level,
{
}

/// The black hole raises the level of every hand type by exactly one, as long
/// as the level is below [`counter_max`], and changes no play count.
pub proof fn lemma_black_hole_levels_all(states: Map<HandType, Progress>, hand_type: HandType)
    requires
        states[hand_type].level < counter_max(),
    ensures
        all_leveled_up(states)[hand_type].level == states[hand_type].level + 1,
        all_leveled_up(states)[hand_type].plays == states[hand_type].plays,
{
}

/// At [`counter_max`] a counter stays where it is: it never wraps around.
pub proof fn lemma_counters_saturate(count: nat)
    ensures
        count <= bumped(count) <= count + 1,
        count <= counter_max() ==> bumped(count) <= counter_max(),
        bumped(counter_max()) == counter_max(),
{
}

/// The black hole does to each hand type what its planet does.
pub proof fn lemma_black_hole_is_every_planet(states: Map<HandType, Progress>, planet: Planet)
    ensures
        all_leveled_up(states)[planet.hand_type_spec()] == leveled_up(
            states,
            planet.hand_type_spec(),
        )[planet.hand_type_spec()],
{
}

} // verus!
