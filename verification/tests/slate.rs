use balatro::{Edition, HasEdition, HasEditionExt, Slate};
use std::convert::Infallible;

#[derive(Debug, Clone)]
struct Item(bool);

impl HasEdition for Item {
    type Scoring = Infallible;
    type Negative = ();

    fn edition_spec(&self) -> Option<Edition<Infallible, ()>> {
        self.edition()
    }

    fn edition(&self) -> Option<Edition<Infallible, ()>> {
        self.0.then_some(Edition::Negative(()))
    }
}

const X: Item = Item(false);
const XNEG: Item = Item(true);

#[test]
fn slate_normal_only() {
    let mut slate = Slate::new(3);

    assert!(slate.push(X).is_ok());
    assert!(slate.push(X).is_ok());
    assert!(slate.push(X).is_ok());
    assert!(slate.is_full());

    assert_eq!(slate.len(), 3);
    assert_eq!(slate.cap(), 3);
}

#[test]
fn slate_some_negs_not_full() {
    let mut slate = Slate::new(3);

    assert!(slate.push(X).is_ok());
    assert!(slate.push(XNEG).is_ok());
    assert!(slate.push(X).is_ok());
    assert!(!slate.is_full());

    assert_eq!(slate.len(), 3);
    assert_eq!(slate.cap(), 4);
}

#[test]
fn slate_some_negs_full() {
    let mut slate = Slate::new(3);

    assert!(slate.push(X).is_ok());
    assert!(slate.push(XNEG).is_ok());
    assert!(slate.push(X).is_ok());
    assert!(slate.push(X).is_ok());
    assert!(slate.is_full());

    assert_eq!(slate.len(), 4);
    assert_eq!(slate.cap(), 4);
}

#[test]
fn slate_push_neg_after_full() {
    let mut slate = Slate::new(3);

    assert!(slate.push(X).is_ok());
    assert!(slate.push(X).is_ok());
    assert!(slate.push(X).is_ok());
    assert!(slate.is_full());

    assert!(slate.push(XNEG).is_ok());
    assert!(slate.is_full());
}

#[test]
fn slate_remove_negs_changing_cap() {
    let mut slate = Slate::new(3);

    assert!(slate.push(X).is_ok());
    assert!(slate.push(XNEG).is_ok());
    assert!(slate.push(X).is_ok());
    assert!(slate.push(X).is_ok());

    assert_eq!(slate.len(), 4);
    assert_eq!(slate.cap(), 4);

    assert!(slate.remove(1).is_negative());

    assert_eq!(slate.len(), 3);
    assert_eq!(slate.cap(), 3);
}

#[test]
fn free_len() {
    let mut slate = Slate::new(3);

    assert_eq!(slate.free_len(), 3);

    slate.push(X).unwrap();
    slate.push(X).unwrap();

    assert_eq!(slate.free_len(), 1);

    slate.push(X).unwrap();

    assert_eq!(slate.free_len(), 0);
}

#[test]
fn free_len_negs() {
    let mut slate = Slate::new(3);

    slate.push(XNEG).unwrap();

    assert_eq!(slate.free_len(), 3);

    slate.push(X).unwrap();

    assert_eq!(slate.free_len(), 2);
}

#[test]
fn new_slate_is_empty_and_not_full() {
    let slate: Slate<Item> = Slate::new(2);

    assert!(slate.is_empty());
    assert!(!slate.is_full());
    assert_eq!(slate.len(), 0);
    assert_eq!(slate.cap(), 2);
    assert_eq!(slate.base_cap(), 2);
    assert_eq!(slate.free_len(), 2);
}

#[test]
fn slate_without_slots_is_full_from_the_start() {
    let mut slate = Slate::new(0);

    assert!(slate.is_empty());
    assert!(slate.is_full());
    assert!(slate.push(X).is_err());

    assert!(slate.push(XNEG).is_ok());
    assert!(slate.is_full());
    assert_eq!(slate.cap(), 1);
    assert_eq!(slate.free_len(), 0);
}

#[test]
fn full_at_exactly_base_cap_and_next_push_comes_back() {
    for base_cap in 0..6usize {
        let mut slate = Slate::new(base_cap);
        for pushed in 0..base_cap {
            assert!(!slate.is_full(), "full after only {pushed} of {base_cap}");
            assert!(slate.push(X).is_ok());
        }
        assert!(slate.is_full());

        let rejected = slate.push(Item(false)).unwrap_err();
        assert!(!rejected.0);
        assert_eq!(slate.len(), base_cap);
        assert_eq!(slate.cap(), base_cap);
    }
}

#[test]
fn each_negative_adds_one_slot_and_takes_it_along() {
    let mut slate = Slate::new(2);

    for held in 1..=4usize {
        slate.push(XNEG).unwrap();
        assert_eq!(slate.cap(), 2 + held);
        assert_eq!(slate.base_cap(), 2);
    }
    slate.push(X).unwrap();
    slate.push(X).unwrap();
    assert!(slate.is_full());
    slate.push(XNEG).unwrap();
    assert!(slate.is_full());
    assert_eq!(slate.cap(), 7);

    assert!(slate.remove(0).is_negative());
    assert_eq!(slate.cap(), 6);
    assert!(!slate.remove(3).is_negative());
    assert_eq!(slate.cap(), 6);
    assert!(slate.remove(4).is_negative());
    assert_eq!(slate.cap(), 5);
}

#[test]
fn free_len_is_cap_less_len_throughout() {
    let mut slate = Slate::new(3);
    let pushes = [false, true, false, true, true, false, false, true];

    for negative in pushes {
        let _ = slate.push(Item(negative));
        assert_eq!(slate.free_len(), slate.cap() - slate.len());
    }
    assert_eq!(slate.len(), 7);
    assert_eq!(slate.cap(), 7);
    while !slate.is_empty() {
        slate.remove(slate.len() / 2);
        assert_eq!(slate.free_len(), slate.cap() - slate.len());
    }
    assert_eq!(slate.free_len(), 3);
}

#[test]
fn removing_keeps_the_order_of_the_rest() {
    let mut slate = Slate::new(2);
    slate.push(Item(false)).unwrap();
    slate.push(Item(true)).unwrap();
    slate.push(Item(true)).unwrap();
    slate.push(Item(false)).unwrap();

    assert!(!slate.remove(0).0);

    let rest: Vec<bool> = slate.iter().map(|item| item.0).collect();
    assert_eq!(rest, vec![true, true, false]);
    assert!(slate.get(0).unwrap().0);
    assert!(!slate.get(2).unwrap().0);
    assert!(slate.get(3).is_none());

    let all: Vec<bool> = slate.into_iter().map(|item| item.0).collect();
    assert_eq!(all, vec![true, true, false]);
}

#[test]
fn clone_holds_the_same_items_and_goes_its_own_way() {
    let mut slate = Slate::new(2);
    slate.push(Item(true)).unwrap();
    slate.push(Item(false)).unwrap();

    let mut copy = slate.clone();
    assert_eq!(copy.len(), 2);
    assert_eq!(copy.cap(), 3);
    assert_eq!(copy.base_cap(), 2);
    assert!(copy.get(0).unwrap().0);
    assert!(!copy.get(1).unwrap().0);

    copy.push(Item(false)).unwrap();
    assert!(copy.remove(0).0);
    assert_eq!(copy.cap(), 2);
    assert_eq!(slate.len(), 2);
    assert_eq!(slate.cap(), 3);

    let by_reference: Vec<bool> = (&slate).into_iter().map(|item| item.0).collect();
    assert_eq!(by_reference, vec![true, false]);
}
