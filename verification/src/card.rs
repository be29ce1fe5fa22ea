//! Playing cards.

use crate::edition::{Edition, HasEdition};
use crate::rank::Rank;
use crate::suit::Suit;
use core::convert::Infallible;
use vstd::prelude::*;

verus! {

/// A playing card. A card can be foil, holographic or polychrome, but never
/// negative.
#[derive(Debug)]
pub struct Card {
    pub rank: Rank,
    pub suit: Suit,
    pub enhancement: Option<Enhancement>,
    pub edition: Option<Edition<(), Infallible>>,
    pub seal: Option<Seal>,
}

impl Clone for Card {
    fn clone(&self) -> (card: Card)
        ensures
            card == *self,
    {
        Card {
            rank: self.rank,
            suit: self.suit,
            enhancement: self.enhancement,
            edition: self.edition,
            seal: self.seal,
        }
    }
}

impl HasEdition for Card {
    type Scoring = ();

    type Negative = Infallible;

    open spec fn edition_spec(&self) -> Option<Edition<(), Infallible>> {
        self.edition
    }

    fn edition(&self) -> (edition: Option<Edition<(), Infallible>>) {
        self.edition
    }
}

impl Card {
    /// A card without enhancement, edition or seal.
    pub fn new(rank: Rank, suit: Suit) -> (card: Card)
        ensures
            card == (Card { rank, suit, enhancement: None, edition: None, seal: None }),
    {
        Self { rank, suit, enhancement: None, edition: None, seal: None }
    }

    /// Starts to build a card from [`Card::new`].
    pub fn builder(rank: Rank, suit: Suit) -> (builder: CardBuilder)
        ensures
            builder@ == (Card { rank, suit, enhancement: None, edition: None, seal: None }),
    {
        CardBuilder(Self::new(rank, suit))
    }
}

/// A card in the making.
#[derive(Debug)]
pub struct CardBuilder(Card);

impl Clone for CardBuilder {
    fn clone(&self) -> (builder: CardBuilder)
        ensures
            builder@ == self@,
    {
        CardBuilder(self.0.clone())
    }
}

impl View for CardBuilder {
    type V = Card;

    /// The card as it would be built now.
    closed spec fn view(&self) -> Card {
        self.0
    }
}

impl CardBuilder {
    pub fn enhancement(self, enhancement: Enhancement) -> (builder: CardBuilder)
        ensures
            builder@ == (Card { enhancement: Some(enhancement), ..self@ }),
    {
        let mut card = self.0;
        card.enhancement = Some(enhancement);
        CardBuilder(card)
    }

    pub fn edition(self, edition: Edition<(), Infallible>) -> (builder: CardBuilder)
        ensures
            builder@ == (Card { edition: Some(edition), ..self@ }),
    {
        let mut card = self.0;
        card.edition = Some(edition);
        CardBuilder(card)
    }

    pub fn seal(self, seal: Seal) -> (builder: CardBuilder)
        ensures
            builder@ == (Card { seal: Some(seal), ..self@ }),
    {
        let mut card = self.0;
        card.seal = Some(seal);
        CardBuilder(card)
    }

    pub fn build(self) -> (card: Card)
        ensures
            card == self@,
    {
        self.0
    }
}

#[derive(Debug, Copy, Clone, PartialEq, Eq, Structural)]
pub enum Enhancement {
    Bonus,
    Mult,
    Wild,
    Glass,
    Steel,
    Stone,
    Gold,
    Lucky,
}

#[derive(Debug, Copy, Clone, PartialEq, Eq, Structural)]
pub enum Seal {
    Gold,
    Red,
    Blue,
    Purple,
}

} // verus!
