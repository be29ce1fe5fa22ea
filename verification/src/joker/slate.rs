//! Finding the jokers of one kind in a slate.

use super::{Joker, JokerKind, KindTag};
use crate::edition::Slate;
use vstd::prelude::*;

verus! {

/// The jokers of the kind with the given tag, in their order.
pub open spec fn of_kind(jokers: Seq<Joker>, tag: KindTag) -> Seq<Joker>
    decreases jokers.len(),
{
    if jokers.len() == 0 {
        Seq::empty()
    } else if jokers.last().kind() == tag {
        of_kind(jokers.drop_last(), tag).push(jokers.last())
    } else {
        of_kind(jokers.drop_last(), tag)
    }
}

/// There are no more jokers of a kind than there are jokers.
pub proof fn lemma_of_kind_len(jokers: Seq<Joker>, tag: KindTag)
    ensures
        of_kind(jokers, tag).len() <= jokers.len(),
    decreases jokers.len(),
{
    if jokers.len() > 0 {
        lemma_of_kind_len(jokers.drop_last(), tag);
    }
}

/// A joker is among those of a kind exactly if it is in the slate and of
/// that kind.
pub proof fn lemma_of_kind_contains(jokers: Seq<Joker>, tag: KindTag, joker: Joker)
    ensures
        of_kind(jokers, tag).contains(joker) <==> jokers.contains(joker) && joker.kind() == tag,
    decreases jokers.len(),
{
    if jokers.len() > 0 {
        let front = jokers.drop_last();
        let last = jokers.last();
        lemma_of_kind_contains(front, tag, joker);
        assert(jokers =~= front.push(last));
        if jokers.contains(joker) {
            let i = choose|i: int| 0 <= i < jokers.len() && jokers[i] == joker;
            if i < front.len() {
                assert(front[i] == joker);
            }
        }
        if front.contains(joker) {
            let i = choose|i: int| 0 <= i < front.len() && front[i] == joker;
            assert(jokers[i] == joker);
        }
        if last.kind() == tag {
            let found = of_kind(front, tag);
            let longer = found.push(last);
            if longer.contains(joker) {
                let i = choose|i: int| 0 <= i < longer.len() && longer[i] == joker;
                if i < found.len() {
                    assert(found[i] == joker);
                }
            }
            if found.contains(joker) {
                let i = choose|i: int| 0 <= i < found.len() && found[i] == joker;
                assert(longer[i] == joker);
            }
            if joker == last {
                assert(longer[found.len() as int] == joker);
                assert(jokers[jokers.len() - 1] == joker);
            }
        }
    }
}

/// Looking up the jokers of a slate by the kind of their ability.
pub trait JokerSlateExt {
    /// The jokers that are looked through.
    spec fn jokers(&self) -> Seq<Joker>;

    /// The jokers whose ability has the given tag, in their order.
    fn with_tag(&self, tag: KindTag) -> (found: Vec<Joker>)
        ensures
            found@ == of_kind(self.jokers(), tag),
    ;

    /// The jokers whose ability is `J`, in their order.
    fn kind<J: JokerKind>(&self) -> (found: Vec<Joker>)
        ensures
            found@ == of_kind(self.jokers(), J::tag_spec()),
    ;

    /// Whether a joker with the ability `J` is there.
    fn has_kind<J: JokerKind>(&self) -> (has: bool)
        ensures
            has == (of_kind(self.jokers(), J::tag_spec()).len() > 0),
    ;
}

impl JokerSlateExt for Slate<Joker> {
    open spec fn jokers(&self) -> Seq<Joker> {
        self@
    }

    fn with_tag(&self, tag: KindTag) -> (found: Vec<Joker>) {
        let mut found: Vec<Joker> = Vec::new();
        let len = self.len();
        let mut index: usize = 0;
        while index < len
            invariant
                len == self@.len(),
                index <= len,
                found@ == of_kind(self@.take(index as int), tag),
            decreases len - index,
        {
            let joker = *self.get(index).unwrap();
            proof {
                assert(self@.take(index + 1).drop_last() =~= self@.take(index as int));
            }
            if joker.kind() == tag {
                found.push(joker);
            }
            index += 1;
        }
        proof {
            assert(self@.take(len as int) =~= self@);
        }
        found
    }

    fn kind<J: JokerKind>(&self) -> (found: Vec<Joker>) {
        self.with_tag(J::tag())
    }

    fn has_kind<J: JokerKind>(&self) -> (has: bool) {
        self.kind::<J>().len() > 0
    }
}

} // verus!
