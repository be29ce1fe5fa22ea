//! Poker hand types and how far each one has been leveled.

pub mod hand_type;
pub mod state;

pub use hand_type::HandType;
pub use state::{HandProgress, HandTypeState, HandTypeStates, Progress};
