use balatro::{is_negative, Edition, HasEdition, ListWithNegatives};
use std::convert::Infallible;

struct Item(bool);

impl HasEdition for Item {
    type Scoring = Infallible;
    type Negative = ();

    fn edition_spec(&self) -> Option<Edition<Infallible, ()>> {
        self.edition()
    }

    fn edition(&self) -> Option<Edition<Infallible, ()>> {
        self.0.then_some(Edition::Negative(()))
    }
}

const X: Item = Item(false);
const XNEG: Item = Item(true);

#[test]
fn list_normal_only() {
    let mut list = ListWithNegatives::new(3);

    assert!(list.push(X).is_ok());
    assert!(list.push(X).is_ok());
    assert!(list.push(X).is_ok());
    assert!(list.is_full());

    assert_eq!(list.len(), 3);
    assert_eq!(list.cap(), 3);
}

#[test]
fn list_some_negs_not_full() {
    let mut list = ListWithNegatives::new(3);

    assert!(list.push(X).is_ok());
    assert!(list.push(XNEG).is_ok());
    assert!(list.push(X).is_ok());
    assert!(!list.is_full());

    assert_eq!(list.len(), 3);
    assert_eq!(list.cap(), 4);
}

#[test]
fn list_some_negs_full() {
    let mut list = ListWithNegatives::new(3);

    assert!(list.push(X).is_ok());
    assert!(list.push(XNEG).is_ok());
    assert!(list.push(X).is_ok());
    assert!(list.push(X).is_ok());
    assert!(list.is_full());

    assert_eq!(list.len(), 4);
    assert_eq!(list.cap(), 4);
}

#[test]
fn list_push_neg_after_full() {
    let mut list = ListWithNegatives::new(3);

    assert!(list.push(X).is_ok());
    assert!(list.push(X).is_ok());
    assert!(list.push(X).is_ok());
    assert!(list.is_full());

    assert!(list.push(XNEG).is_ok());
    assert!(list.is_full());
}

#[test]
fn list_remove_negs_changing_cap() {
    let mut list = ListWithNegatives::new(3);

    assert!(list.push(X).is_ok());
    assert!(list.push(XNEG).is_ok());
    assert!(list.push(X).is_ok());
    assert!(list.push(X).is_ok());

    assert_eq!(list.len(), 4);
    assert_eq!(list.cap(), 4);

    assert!(is_negative(&list.remove(1)));

    assert_eq!(list.len(), 3);
    assert_eq!(list.cap(), 3);
}
