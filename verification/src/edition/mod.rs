//! Editions, and which of them an item can carry.

pub mod capacity;
pub mod list;
pub mod slate;

use crate::sealed::Sealed;
use core::convert::Infallible;
use vstd::prelude::*;

pub use list::{is_negative, ListWithNegatives};
pub use slate::Slate;

verus! {

/// Whether a kind of item can carry a group of editions.
///
/// There are two modes. `()` says that it can: the edition's variant holds
/// the unit value. [`Infallible`] says that it cannot: the variant would hold
/// a value of a type that has none, so it cannot be built.
pub trait EditionMode: Sealed + Eq {

}

impl EditionMode for () {

}

impl EditionMode for Infallible {

}

/// The edition of an item.
///
/// `S` is the mode of the three scoring editions and `N` the mode of the
/// negative edition: an item type names both through [`HasEdition`].
#[derive(Debug, Copy, Clone, PartialEq, Eq)]
pub enum Edition<S: EditionMode, N: EditionMode> {
    Foil(S),
    Holographic(S),
    Polychrome(S),
    Negative(N),
}

/// The editions that items of the type `T` can carry.
pub type EditionOf<T> = Edition<<T as HasEdition>::Scoring, <T as HasEdition>::Negative>;

/// An item that may carry an edition.
pub trait HasEdition: Sized {
    /// `()` if the item can be foil, holographic or polychrome.
    type Scoring: EditionMode;

    /// `()` if the item can be negative.
    type Negative: EditionMode;

    /// The edition that the item carries, if any.
    spec fn edition_spec(&self) -> Option<EditionOf<Self>>;

    /// The edition that the item carries, if any.
    fn edition(&self) -> (edition: Option<EditionOf<Self>>)
        ensures
            edition == self.edition_spec(),
    ;
}

/// Whether the item is foil.
pub open spec fn foil<T: HasEdition>(item: T) -> bool {
    item.edition_spec() matches Some(Edition::Foil(_))
}

/// Whether the item is holographic.
pub open spec fn holographic<T: HasEdition>(item: T) -> bool {
    item.edition_spec() matches Some(Edition::Holographic(_))
}

/// Whether the item is polychrome.
pub open spec fn polychrome<T: HasEdition>(item: T) -> bool {
    item.edition_spec() matches Some(Edition::Polychrome(_))
}

/// Whether the item is negative. A negative item takes up no room: the
/// collection that holds it has one slot more for as long as it does.
pub open spec fn negative<T: HasEdition>(item: T) -> bool {
    item.edition_spec() matches Some(Edition::Negative(_))
}

/// Questions about the edition of an item.
pub trait HasEditionExt: HasEdition {
    fn is_foil(&self) -> (foil: bool) where Self: HasEdition<Scoring = ()>
        ensures
            foil == self::foil(*self),
    {
        match self.edition() {
            Some(Edition::Foil(())) => true,
            _ => false,
        }
    }

    fn is_holographic(&self) -> (holographic: bool) where Self: HasEdition<Scoring = ()>
        ensures
            holographic == self::holographic(*self),
    {
        match self.edition() {
            Some(Edition::Holographic(())) => true,
            _ => false,
        }
    }

    fn is_polychrome(&self) -> (polychrome: bool) where Self: HasEdition<Scoring = ()>
        ensures
            polychrome == self::polychrome(*self),
    {
        match self.edition() {
            Some(Edition::Polychrome(())) => true,
            _ => false,
        }
    }

    fn is_negative(&self) -> (negative: bool) where Self: HasEdition<Negative = ()>
        ensures
            negative == self::negative(*self),
    {
        match self.edition() {
            Some(Edition::Negative(())) => true,
            _ => false,
        }
    }
}

impl<H: HasEdition> HasEditionExt for H {

}

} // verus!
