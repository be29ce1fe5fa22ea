use balatro::Rank;
use balatro::Rank::{Ace, Eight, Five, Four, Jack, King, Nine, Queen, Seven, Six, Ten, Three, Two};

#[test]
fn face() {
    for rank in Rank::variants() {
        assert_eq!(rank.is_face(), matches!(rank, Jack | Queen | King));
    }
}

#[test]
fn odd() {
    for rank in Rank::variants() {
        assert_eq!(
            rank.is_odd(),
            matches!(rank, Three | Five | Seven | Nine | Ace),
        );
    }
}

#[test]
fn even() {
    for rank in Rank::variants() {
        assert_eq!(
            rank.is_even(),
            matches!(rank, Two | Four | Six | Eight | Ten),
        )
    }
}
