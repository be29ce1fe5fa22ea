//! Jokers: items whose abilities change the score of a play.

pub mod impls;
pub mod list;
pub mod random;
pub mod rarity;
pub mod scorer;
pub mod slate;

use crate::edition::{Edition, HasEdition};
use crate::money::Money;
use rand::rngs::StdRng;
use vstd::prelude::*;

pub use impls::{JimboJoker, MisprintJoker, StencilJoker};
pub use list::JokerList;
pub use rarity::Rarity;
pub use scorer::{Score, Scorer, MISPRINT_MAX};
pub use slate::{of_kind, JokerSlateExt};

verus! {

/// The tag of an ability. Jokers are told apart by their tags, never by
/// their names: two abilities may well share a name.
#[derive(Debug, Copy, Clone, PartialEq, Eq, Hash, Structural)]
pub enum KindTag {
    Jimbo,
    Misprint,
    Stencil,
}

impl KindTag {
    /// The name that a joker of this kind is shown under.
    pub open spec fn name(self) -> Seq<char> {
        match self {
            KindTag::Jimbo => "Joker"@,
            KindTag::Misprint => "Misprint"@,
            KindTag::Stencil => "Joker Stencil"@,
        }
    }

    pub open spec fn rarity(self) -> Rarity {
        match self {
            KindTag::Jimbo => Rarity::Common,
            KindTag::Misprint => Rarity::Common,
            KindTag::Stencil => Rarity::Uncommon,
        }
    }

    /// What a joker of this kind costs in the shop.
    pub open spec fn price(self) -> Money {
        match self {
            KindTag::Jimbo => Money(2),
            KindTag::Misprint => Money(4),
            KindTag::Stencil => Money(8),
        }
    }
}

/// An ability: what a joker of one kind is called, how rare it is, what it
/// costs and what it does to the score of a play.
///
/// Every ability stands in the catalog under its tag, and an implementation
/// is held to its entry there: name, rarity and price are those of
/// [`KindTag`], and the effect is that of [`KindTag::effect`].
pub trait JokerKind: Sized {
    /// The tag of the ability.
    spec fn tag_spec() -> KindTag;

    fn tag() -> (tag: KindTag)
        ensures
            tag == Self::tag_spec(),
    ;

    fn name(&self) -> (name: &'static str)
        ensures
            name@ == Self::tag_spec().name(),
    ;

    fn rarity(&self) -> (rarity: Rarity)
        ensures
            rarity == Self::tag_spec().rarity(),
    ;

    fn price(&self) -> (price: Money)
        ensures
            price == Self::tag_spec().price(),
    ;

    /// Applies the effect that does not depend on the cards played. It reads
    /// the jokers of the scorer and changes its chips and mult. An ability
    /// that draws a number draws it from `rng`, and draws at most
    /// [`MISPRINT_MAX`].
    ///
    /// The effect must fit into the counters whatever is drawn.
    fn run_independent(&self, scorer: &mut Scorer, rng: &mut StdRng)
        requires
            old(scorer).jokers.wf(),
            old(scorer).fits(Self::tag_spec()),
        ensures
            final(scorer).jokers == old(scorer).jokers,
            exists|roll: nat|
                roll <= MISPRINT_MAX && #[trigger] old(scorer).after(Self::tag_spec(), roll)
                    == final(scorer).score(),
    ;
}

/// A joker: an ability, and perhaps an edition. A joker can carry any of the
/// four editions.
#[derive(Debug, Clone, Copy)]
pub struct Joker {
    kind: KindTag,
    edition: Option<Edition<(), ()>>,
}

impl HasEdition for Joker {
    type Scoring = ();

    type Negative = ();

    closed spec fn edition_spec(&self) -> Option<Edition<(), ()>> {
        self.edition
    }

    fn edition(&self) -> (edition: Option<Edition<(), ()>>) {
        self.edition
    }
}

impl Joker {
    /// The tag of the joker's ability.
    pub closed spec fn kind_spec(&self) -> KindTag {
        self.kind
    }

    /// The tag of the joker's ability.
    #[verifier::when_used_as_spec(kind_spec)]
    pub fn kind(&self) -> (tag: KindTag)
        ensures
            tag == self.kind_spec(),
    {
        self.kind
    }

    /// A joker of the given kind without an edition.
    pub fn new<K: JokerKind>(kind: K) -> (joker: Joker)
        ensures
            joker.kind() == K::tag_spec(),
            joker.edition_spec() is None,
    {
        let _ = kind;
        Self { kind: K::tag(), edition: None }
    }

    /// Starts to build a joker from [`Joker::new`].
    pub fn builder<K: JokerKind>(kind: K) -> (builder: JokerBuilder)
        ensures
            builder@.kind() == K::tag_spec(),
            builder@.edition_spec() is None,
    {
        JokerBuilder(Self::new(kind))
    }

    /// Whether the joker's ability is `J`.
    pub fn is<J: JokerKind>(&self) -> (is: bool)
        ensures
            is == (self.kind() == J::tag_spec()),
    {
        self.kind == J::tag()
    }

    pub fn name(&self) -> (name: &'static str)
        ensures
            name@ == self.kind().name(),
    {
        match self.kind {
            KindTag::Jimbo => JimboJoker.name(),
            KindTag::Misprint => MisprintJoker.name(),
            KindTag::Stencil => StencilJoker.name(),
        }
    }

    pub fn rarity(&self) -> (rarity: Rarity)
        ensures
            rarity == self.kind().rarity(),
    {
        match self.kind {
            KindTag::Jimbo => JimboJoker.rarity(),
            KindTag::Misprint => MisprintJoker.rarity(),
            KindTag::Stencil => StencilJoker.rarity(),
        }
    }

    pub fn price(&self) -> (price: Money)
        ensures
            price == self.kind().price(),
    {
        match self.kind {
            KindTag::Jimbo => JimboJoker.price(),
            KindTag::Misprint => MisprintJoker.price(),
            KindTag::Stencil => StencilJoker.price(),
        }
    }

    /// Applies the effect of the joker's ability: see
    /// [`JokerKind::run_independent`].
    pub fn run_independent(&self, scorer: &mut Scorer, rng: &mut StdRng)
        requires
            old(scorer).jokers.wf(),
            old(scorer).fits(self.kind()),
        ensures
            final(scorer).jokers == old(scorer).jokers,
            exists|roll: nat|
                roll <= MISPRINT_MAX && #[trigger] old(scorer).after(self.kind(), roll)
                    == final(scorer).score(),
    {
        match self.kind {
            KindTag::Jimbo => JimboJoker.run_independent(scorer, rng),
            KindTag::Misprint => MisprintJoker.run_independent(scorer, rng),
            KindTag::Stencil => StencilJoker.run_independent(scorer, rng),
        }
    }
}

/// A joker in the making.
#[derive(Debug, Clone, Copy)]
pub struct JokerBuilder(Joker);

impl View for JokerBuilder {
    type V = Joker;

    /// The joker as it would be built now.
    closed spec fn view(&self) -> Joker {
        self.0
    }
}

impl JokerBuilder {
    pub fn edition(self, edition: Edition<(), ()>) -> (builder: JokerBuilder)
        ensures
            builder@.kind() == self@.kind(),
            builder@.edition_spec() == Some(edition),
    {
        JokerBuilder(Joker { kind: self.0.kind, edition: Some(edition) })
    }

    pub fn build(self) -> (joker: Joker)
        ensures
            joker == self@,
    {
        self.0
    }
}

} // verus!
