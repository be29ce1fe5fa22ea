use balatro::{
    Chips, Edition, JimboJoker, Joker, JokerKind, KindTag, MisprintJoker, Mult, Scorer, Slate,
    StencilJoker, MISPRINT_MAX,
};
use rand::rngs::StdRng;
use rand::SeedableRng;

fn slate_of(base_cap: usize, jokers: Vec<Joker>) -> Slate<Joker> {
    let mut slate = Slate::new(base_cap);
    for joker in jokers {
        slate.push(joker).unwrap();
    }
    slate
}

#[test]
fn scorer_starts_at_one_chip_and_a_mult_of_one() {
    let scorer = Scorer::new(slate_of(3, vec![Joker::new(JimboJoker)]));

    assert_eq!(scorer.chips, Chips(1));
    assert_eq!(scorer.mult, Mult(1));
    assert_eq!(scorer.jokers.len(), 1);
    assert_eq!(scorer.jokers.base_cap(), 3);
}

#[test]
fn jimbo_adds_four_mult() {
    let mut scorer = Scorer::new(slate_of(1, vec![Joker::new(JimboJoker)]));
    let mut rng = StdRng::seed_from_u64(1);

    JimboJoker.run_independent(&mut scorer, &mut rng);
    assert_eq!(scorer.mult, Mult(5));
    assert_eq!(scorer.chips, Chips(1));

    Joker::new(JimboJoker).run_independent(&mut scorer, &mut rng);
    assert_eq!(scorer.mult, Mult(9));
}

#[test]
fn jokers_run_from_left_to_right() {
    let jokers = vec![
        Joker::new(JimboJoker),
        Joker::new(StencilJoker),
        Joker::new(JimboJoker),
    ];
    let mut scorer = Scorer::new(slate_of(5, jokers));
    let mut rng = StdRng::seed_from_u64(2);

    assert!(scorer.can_run_independent());
    scorer.run_independent(&mut rng);

    // two free slots and one stencil
    assert_eq!(scorer.mult, Mult((1 + 4) * 3 + 4));
    assert_eq!(scorer.chips, Chips(1));
    assert_eq!(scorer.jokers.len(), 3);
}

#[test]
fn another_order_gives_another_mult() {
    let mut rng = StdRng::seed_from_u64(3);

    let mut jimbo_first =
        Scorer::new(slate_of(5, vec![Joker::new(JimboJoker), Joker::new(StencilJoker)]));
    jimbo_first.run_independent(&mut rng);
    assert_eq!(jimbo_first.mult, Mult((1 + 4) * 4));

    let mut stencil_first =
        Scorer::new(slate_of(5, vec![Joker::new(StencilJoker), Joker::new(JimboJoker)]));
    stencil_first.run_independent(&mut rng);
    assert_eq!(stencil_first.mult, Mult(1 * 4 + 4));
}

#[test]
fn empty_slate_leaves_the_score_alone() {
    let mut scorer = Scorer::new(Slate::new(5));
    scorer.chips = Chips(40);
    scorer.mult = Mult(4);
    let mut rng = StdRng::seed_from_u64(4);

    assert!(scorer.can_run_independent());
    scorer.run_independent(&mut rng);

    assert_eq!(scorer.chips, Chips(40));
    assert_eq!(scorer.mult, Mult(4));
}

#[test]
fn misprint_at_the_ends_of_its_range() {
    let mut scorer = Scorer::new(slate_of(1, vec![Joker::new(MisprintJoker)]));
    scorer.mult = Mult(10);

    MisprintJoker::add_roll(&mut scorer, 0);
    assert_eq!(scorer.mult, Mult(10));

    MisprintJoker::add_roll(&mut scorer, 23);
    assert_eq!(scorer.mult, Mult(33));
    assert_eq!(scorer.chips, Chips(1));
    assert_eq!(MISPRINT_MAX, 23);
}

#[test]
fn misprint_draws_within_its_range() {
    let mut rng = StdRng::seed_from_u64(5);
    let mut seen = [false; 24];

    for _ in 0..2000 {
        let mut scorer = Scorer::new(slate_of(1, vec![Joker::new(MisprintJoker)]));
        scorer.mult = Mult(100);

        MisprintJoker.run_independent(&mut scorer, &mut rng);

        assert!(scorer.mult >= Mult(100));
        assert!(scorer.mult <= Mult(123));
        assert_eq!(scorer.chips, Chips(1));
        seen[(scorer.mult.0 - 100) as usize] = true;
    }
    assert!(seen.iter().all(|&drawn| drawn));
}

#[test]
fn misprint_repeats_itself_from_the_same_seed() {
    let mut first = Scorer::new(slate_of(1, vec![Joker::new(MisprintJoker)]));
    let mut second = Scorer::new(slate_of(1, vec![Joker::new(MisprintJoker)]));
    let mut first_rng = StdRng::seed_from_u64(6);
    let mut second_rng = StdRng::seed_from_u64(6);

    for _ in 0..50 {
        first.run_independent(&mut first_rng);
        second.run_independent(&mut second_rng);
        assert_eq!(first.mult, second.mult);
    }
}

#[test]
fn pass_with_a_misprint_stays_between_its_bounds() {
    let jokers = vec![
        Joker::new(JimboJoker),
        Joker::builder(MisprintJoker).edition(Edition::Negative(())).build(),
        Joker::new(StencilJoker),
    ];
    let mut rng = StdRng::seed_from_u64(7);

    for _ in 0..200 {
        let mut scorer = Scorer::new(slate_of(3, jokers.clone()));
        scorer.run_independent(&mut rng);

        // one free slot and one stencil
        assert!(scorer.mult >= Mult((1 + 4) * 2));
        assert!(scorer.mult <= Mult((1 + 4 + 23) * 2));
        assert_eq!(scorer.mult.0 % 2, 0);
    }
}

#[test]
fn can_run_tells_when_the_mult_would_not_fit() {
    let mut scorer = Scorer::new(slate_of(
        4,
        vec![Joker::new(JimboJoker), Joker::new(MisprintJoker), Joker::new(StencilJoker)],
    ));

    scorer.mult = Mult(u64::MAX - 4);
    assert!(scorer.can_run(KindTag::Jimbo));
    assert!(!scorer.can_run(KindTag::Misprint));
    assert!(!scorer.can_run(KindTag::Stencil));
    assert!(!scorer.can_run_independent());

    scorer.mult = Mult(u64::MAX - 3);
    assert!(!scorer.can_run(KindTag::Jimbo));

    scorer.mult = Mult(u64::MAX - 23);
    assert!(scorer.can_run(KindTag::Misprint));

    // one free slot and one stencil
    scorer.mult = Mult(u64::MAX / 2);
    assert!(scorer.can_run(KindTag::Stencil));
    scorer.mult = Mult(u64::MAX / 2 + 1);
    assert!(!scorer.can_run(KindTag::Stencil));

    // (mult + 4 + 23) * 2 has to fit
    scorer.mult = Mult(u64::MAX / 2 - 27);
    assert!(scorer.can_run_independent());
    scorer.mult = Mult(u64::MAX / 2 - 26);
    assert!(!scorer.can_run_independent());
}
