use balatro::{
    Edition, HasEdition, HasEditionExt, JimboJoker, Joker, JokerKind, JokerList, JokerSlateExt,
    KindTag, MisprintJoker, Money, Rarity, Slate, StencilJoker,
};

#[test]
fn list_finding_jokers_by_type_id() {
    let mut list = JokerList::new(1);

    list.push(Joker::new(JimboJoker)).unwrap();

    assert!(list.has_kind::<JimboJoker>());
    assert_eq!(list.kind::<JimboJoker>().len(), 1);

    assert!(!list.has_kind::<StencilJoker>());
    assert_eq!(list.kind::<StencilJoker>().len(), 0);
}

#[test]
fn slate_finding_jokers_by_type_id() {
    let mut slate = Slate::<Joker>::new(1);

    slate.push(Joker::new(JimboJoker)).unwrap();

    assert!(slate.has_kind::<JimboJoker>());
    assert_eq!(slate.kind::<JimboJoker>().len(), 1);

    assert!(!slate.has_kind::<StencilJoker>());
    assert_eq!(slate.kind::<StencilJoker>().len(), 0);
}

#[test]
fn jokers_of_a_kind_come_in_their_order() {
    let mut slate = Slate::<Joker>::new(3);
    slate.push(Joker::builder(StencilJoker).edition(Edition::Foil(())).build()).unwrap();
    slate.push(Joker::new(MisprintJoker)).unwrap();
    slate.push(Joker::builder(StencilJoker).edition(Edition::Negative(())).build()).unwrap();
    slate.push(Joker::builder(StencilJoker).edition(Edition::Polychrome(())).build()).unwrap();

    let stencils = slate.kind::<StencilJoker>();
    assert_eq!(stencils.len(), 3);
    assert!(stencils[0].is_foil());
    assert!(stencils[1].is_negative());
    assert!(stencils[2].is_polychrome());
    assert!(stencils.iter().all(|joker| joker.is::<StencilJoker>()));

    assert_eq!(slate.with_tag(KindTag::Misprint).len(), 1);
    assert_eq!(slate.with_tag(KindTag::Jimbo).len(), 0);
    assert!(slate.has_kind::<MisprintJoker>());
    assert!(!slate.has_kind::<JimboJoker>());
}

#[test]
fn a_joker_is_of_its_own_kind_only() {
    let jimbo = Joker::new(JimboJoker);
    let misprint = Joker::new(MisprintJoker);
    let stencil = Joker::new(StencilJoker);

    assert!(jimbo.is::<JimboJoker>());
    assert!(!jimbo.is::<MisprintJoker>());
    assert!(!jimbo.is::<StencilJoker>());
    assert!(misprint.is::<MisprintJoker>());
    assert!(!misprint.is::<JimboJoker>());
    assert!(stencil.is::<StencilJoker>());
    assert!(!stencil.is::<MisprintJoker>());

    assert_eq!(jimbo.kind(), KindTag::Jimbo);
    assert_eq!(misprint.kind(), KindTag::Misprint);
    assert_eq!(stencil.kind(), KindTag::Stencil);
}

#[test]
fn catalog() {
    let jimbo = Joker::new(JimboJoker);
    assert_eq!(jimbo.name(), "Joker");
    assert_eq!(jimbo.rarity(), Rarity::Common);
    assert_eq!(jimbo.price(), Money(2));

    let misprint = Joker::new(MisprintJoker);
    assert_eq!(misprint.name(), "Misprint");
    assert_eq!(misprint.rarity(), Rarity::Common);
    assert_eq!(misprint.price(), Money(4));

    let stencil = Joker::new(StencilJoker);
    assert_eq!(stencil.name(), "Joker Stencil");
    assert_eq!(stencil.rarity(), Rarity::Uncommon);
    assert_eq!(stencil.price(), Money(8));

    assert_eq!(JimboJoker.name(), "Joker");
    assert_eq!(MisprintJoker.price(), Money(4));
    assert_eq!(StencilJoker.rarity(), Rarity::Uncommon);
    assert_eq!(JimboJoker::tag(), KindTag::Jimbo);
    assert_eq!(MisprintJoker::tag(), KindTag::Misprint);
    assert_eq!(StencilJoker::tag(), KindTag::Stencil);
}

#[test]
fn rarities_are_ordered() {
    assert!(Rarity::Common < Rarity::Uncommon);
    assert!(Rarity::Uncommon < Rarity::Rare);
    assert!(Rarity::Rare < Rarity::Legendary);
}

#[test]
fn joker_editions() {
    let plain = Joker::new(JimboJoker);
    assert!(plain.edition().is_none());
    assert!(!plain.is_foil());
    assert!(!plain.is_holographic());
    assert!(!plain.is_polychrome());
    assert!(!plain.is_negative());

    let foil = Joker::builder(JimboJoker).edition(Edition::Foil(())).build();
    assert_eq!(foil.edition(), Some(Edition::Foil(())));
    assert!(foil.is_foil());
    assert!(!foil.is_negative());

    let holographic = Joker::builder(JimboJoker).edition(Edition::Holographic(())).build();
    assert!(holographic.is_holographic());
    assert!(!holographic.is_foil());

    let polychrome = Joker::builder(JimboJoker).edition(Edition::Polychrome(())).build();
    assert!(polychrome.is_polychrome());

    let negative = Joker::builder(StencilJoker)
        .edition(Edition::Foil(()))
        .edition(Edition::Negative(()))
        .build();
    assert!(negative.is_negative());
    assert!(!negative.is_foil());
    assert!(negative.is::<StencilJoker>());
}

#[test]
fn joker_list_capacity() {
    let mut list = JokerList::new(2);
    assert_eq!(list.base_cap(), 2);
    assert_eq!(list.cap(), 2);
    assert!(!list.is_full());

    list.push(Joker::new(JimboJoker)).unwrap();
    list.push(Joker::new(MisprintJoker)).unwrap();
    assert!(list.is_full());

    let rejected = list.push(Joker::new(StencilJoker)).unwrap_err();
    assert!(rejected.is::<StencilJoker>());
    assert_eq!(list.len(), 2);

    list.push(Joker::builder(StencilJoker).edition(Edition::Negative(())).build()).unwrap();
    assert_eq!(list.len(), 3);
    assert_eq!(list.cap(), 3);
    assert!(list.is_full());
    assert!(list[2].is::<StencilJoker>());

    assert!(list.remove(0).is::<JimboJoker>());
    assert!(list[0].is::<MisprintJoker>());
    assert!(!list.is_full());
    assert!(list.remove(1).is_negative());
    assert_eq!(list.cap(), 2);
    assert_eq!(list.with_tag(KindTag::Misprint).len(), 1);
}
