use balatro::{Edition, Joker, JokerKind, JimboJoker, Mult, Scorer, Slate, StencilJoker};
use rand::rngs::StdRng;
use rand::SeedableRng;

#[test]
fn only_joker() {
    let mut jokers = Slate::new(5);
    jokers.push(Joker::new(StencilJoker)).unwrap();
    let mut scorer = Scorer::new(jokers);
    let mut rng = StdRng::seed_from_u64(0);

    StencilJoker.run_independent(&mut scorer, &mut rng);

    assert_eq!(scorer.mult, Mult(5));
}

#[test]
fn stencil_counts_free_slots_and_stencils() {
    let mut jokers = Slate::new(5);
    jokers.push(Joker::new(StencilJoker)).unwrap();
    jokers.push(Joker::new(JimboJoker)).unwrap();
    jokers.push(Joker::new(StencilJoker)).unwrap();
    let mut scorer = Scorer::new(jokers);
    scorer.mult = Mult(3);
    let mut rng = StdRng::seed_from_u64(0);

    StencilJoker.run_independent(&mut scorer, &mut rng);

    assert_eq!(scorer.mult, Mult(3 * (2 + 2)));
    assert_eq!(scorer.chips.0, 1);
    assert_eq!(scorer.jokers.len(), 3);
}

#[test]
fn negative_jokers_leave_the_free_slots_to_the_stencil() {
    let mut jokers = Slate::new(2);
    jokers.push(Joker::new(StencilJoker)).unwrap();
    jokers
        .push(Joker::builder(JimboJoker).edition(Edition::Negative(())).build())
        .unwrap();
    let mut scorer = Scorer::new(jokers);
    let mut rng = StdRng::seed_from_u64(0);

    StencilJoker.run_independent(&mut scorer, &mut rng);

    assert_eq!(scorer.mult, Mult(1 + 1));
}

#[test]
fn stencil_outside_a_full_slate_takes_the_mult_to_zero() {
    let mut jokers = Slate::new(1);
    jokers.push(Joker::new(JimboJoker)).unwrap();
    let mut scorer = Scorer::new(jokers);
    scorer.mult = Mult(7);
    let mut rng = StdRng::seed_from_u64(0);

    assert!(scorer.can_run(StencilJoker::tag()));
    StencilJoker.run_independent(&mut scorer, &mut rng);

    assert_eq!(scorer.mult, Mult(0));
}
