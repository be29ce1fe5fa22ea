//! Card ranks and the chips each one scores.

use vstd::prelude::*;

verus! {

#[derive(Debug, Copy, Clone, PartialEq, Eq, PartialOrd, Ord, Structural)]
pub enum Rank {
    Two,
    Three,
    Four,
    Five,
    Six,
    Seven,
    Eight,
    Nine,
    Ten,
    Jack,
    Queen,
    King,
    Ace,
}

impl Rank {
    /// The chips a card of this rank scores: its pip count, ten for a face
    /// card, eleven for an ace.
    pub open spec fn score_spec(self) -> u64 {
        match self {
            Rank::Two => 2,
            Rank::Three => 3,
            Rank::Four => 4,
            Rank::Five => 5,
            Rank::Six => 6,
            Rank::Seven => 7,
            Rank::Eight => 8,
            Rank::Nine => 9,
            Rank::Ten => 10,
            Rank::Jack => 10,
            Rank::Queen => 10,
            Rank::King => 10,
            Rank::Ace => 11,
        }
    }

    /// Jack, queen and king.
    pub open spec fn is_face_spec(self) -> bool {
        self is Jack || self is Queen || self is King
    }

    /// A rank is odd when its score is: three, five, seven, nine and the ace.
    pub open spec fn is_odd_spec(self) -> bool {
        self.score_spec() % 2 == 1
    }

    /// A rank is even when it is no face card and not odd: two, four, six,
    /// eight and ten.
    pub open spec fn is_even_spec(self) -> bool {
        !self.is_face_spec() && !self.is_odd_spec()
    }

    /// Every rank once, from the two up to the ace.
    pub open spec fn all() -> Seq<Rank> {
        seq![
            Rank::Two,
            Rank::Three,
            Rank::Four,
            Rank::Five,
            Rank::Six,
            Rank::Seven,
            Rank::Eight,
            Rank::Nine,
            Rank::Ten,
            Rank::Jack,
            Rank::Queen,
            Rank::King,
            Rank::Ace,
        ]
    }

    pub fn variants() -> (ranks: Vec<Rank>)
        ensures
            ranks@ == Rank::all(),
    {
        vec![
            Rank::Two,
            Rank::Three,
            Rank::Four,
            Rank::Five,
            Rank::Six,
            Rank::Seven,
            Rank::Eight,
            Rank::Nine,
            Rank::Ten,
            Rank::Jack,
            Rank::Queen,
            Rank::King,
            Rank::Ace,
        ]
    }

    #[verifier::when_used_as_spec(score_spec)]
    pub fn score(self) -> (chips: u64)
        ensures
            chips == self.score_spec(),
    {
        match self {
            Rank::Two => 2,
            Rank::Three => 3,
            Rank::Four => 4,
            Rank::Five => 5,
            Rank::Six => 6,
            Rank::Seven => 7,
            Rank::Eight => 8,
            Rank::Nine => 9,
            Rank::Ten => 10,
            Rank::Jack => 10,
            Rank::Queen => 10,
            Rank::King => 10,
            Rank::Ace => 11,
        }
    }

    #[verifier::when_used_as_spec(is_face_spec)]
    pub fn is_face(self) -> (face: bool)
        ensures
            face == self.is_face_spec(),
    {
        matches!(self, Rank::Jack | Rank::Queen | Rank::King)
    }

    #[verifier::when_used_as_spec(is_odd_spec)]
    pub fn is_odd(self) -> (odd: bool)
        ensures
            odd == self.is_odd_spec(),
            odd == (self is Three || self is Five || self is Seven || self is Nine || self is Ace),
    {
        self.score() % 2 != 0
    }

    #[verifier::when_used_as_spec(is_even_spec)]
    pub fn is_even(self) -> (even: bool)
        ensures
            even == self.is_even_spec(),
            even == (self is Two || self is Four || self is Six || self is Eight || self is Ten),
    {
        !self.is_face() && !self.is_odd()
    }
}

/// Every rank is exactly one of face, odd and even.
pub proof fn lemma_rank_classes_partition(rank: Rank)
    ensures
        rank.is_face_spec() || rank.is_odd_spec() || rank.is_even_spec(),
        !(rank.is_face_spec() && rank.is_odd_spec()),
        !(rank.is_face_spec() && rank.is_even_spec()),
        !(rank.is_odd_spec() && rank.is_even_spec()),
{
}

} // verus!
