//! Rules engine of a deck-building card game: bounded collections whose
//! capacity grows with "negative" items, hand-type leveling, and the
//! chips/mult scoring pass that joker abilities mutate in order.

pub mod ante;
pub mod blind;
pub mod card;
pub mod edition;
pub mod hand;
pub mod joker;
pub mod money;
pub mod planet;
pub mod rank;
pub mod score;
mod sealed;
pub mod suit;

pub use ante::Ante;
pub use blind::{Blind, Boss};
pub use card::{Card, CardBuilder, Enhancement, Seal};
pub use edition::{
    is_negative, Edition, EditionMode, EditionOf, HasEdition, HasEditionExt, ListWithNegatives,
    Slate,
};
pub use hand::{HandProgress, HandType, HandTypeState, HandTypeStates, Progress};
pub use joker::{
    JimboJoker, Joker, JokerBuilder, JokerKind, JokerList, JokerSlateExt, KindTag, MisprintJoker,
    Rarity, Score, Scorer, StencilJoker, MISPRINT_MAX,
};
pub use money::Money;
pub use planet::Planet;
pub use rank::Rank;
pub use score::{Chips, ChipsAllowMul, Mult, ScoreBuilder};
pub use suit::{Suit, SuitFamily};
