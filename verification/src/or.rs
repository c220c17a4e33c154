//! The combinator itself: two sources and the state that says which one is
//! drawn from.

use vstd::prelude::*;
use vstd::std_specs::iter::IteratorSpec;
use crate::hint::{hint_holds, merge_hints};
use crate::laws::{lemma_can_fold_rest, lemma_fold_by_steps};
use crate::model::{
    can_fold, committed, folds_to, last_item, laws_hold, pending, skip_to, step, State,
};
use crate::source::{count_of, fold_of, hint_of, last_of, len_of, nth_of};

verus! {

/// Yields the items of the first iterator, or those of the second when the
/// first has none.
pub struct Or<I1, I2> {
    iter1: I1,
    iter2: I2,
    state: State,
}

impl<I1, I2> Or<I1, I2> {
    /// The first source, as it now stands.
    pub closed spec fn first(&self) -> I1 {
        self.iter1
    }

    /// The second source, as it now stands.
    pub closed spec fn second(&self) -> I2 {
        self.iter2
    }

    /// Which source is drawn from.
    pub closed spec fn state(&self) -> State {
        self.state
    }
}

impl<I1, I2> Or<I1, I2> where I1: Iterator, I2: Iterator<Item = I1::Item> {
    /// Pulls one item. The first pull decides the source: the first one if it
    /// gives an item, else the second; every later pull goes to that source
    /// and leaves the other one alone.
    pub fn next(&mut self) -> (ret: Option<I1::Item>)
        ensures
            laws_hold(
                old(self).state(),
                old(self).first().obeys_prophetic_iter_laws(),
                old(self).first().remaining(),
                old(self).second().obeys_prophetic_iter_laws(),
            ) ==> laws_hold(
                final(self).state(),
                final(self).first().obeys_prophetic_iter_laws(),
                final(self).first().remaining(),
                final(self).second().obeys_prophetic_iter_laws(),
            ),
            laws_hold(
                old(self).state(),
                old(self).first().obeys_prophetic_iter_laws(),
                old(self).first().remaining(),
                old(self).second().obeys_prophetic_iter_laws(),
            ) ==> final(self).state() == committed(
                old(self).state(),
                old(self).first().remaining().len() > 0,
            ),
            laws_hold(
                old(self).state(),
                old(self).first().obeys_prophetic_iter_laws(),
                old(self).first().remaining(),
                old(self).second().obeys_prophetic_iter_laws(),
            ) ==> (ret, pending(
                final(self).state(),
                final(self).first().remaining(),
                final(self).second().remaining(),
            )) == step(
                pending(
                    old(self).state(),
                    old(self).first().remaining(),
                    old(self).second().remaining(),
                ),
            ),
            final(self).state() != State::Initial,
            old(self).state() != State::Initial ==> final(self).state() == old(self).state(),
            final(self).state() == State::InIter1 ==> final(self).second() == old(self).second(),
            old(self).state() == State::InIter2 ==> final(self).first() == old(self).first(),
    {
        match self.state {
            State::Initial => {
                let x = self.iter1.next();
                match x {
                    Some(_) => {
                        self.state = State::InIter1;
                        x
                    },
                    None => {
                        self.state = State::InIter2;
                        self.iter2.next()
                    },
                }
            },
            State::InIter1 => self.iter1.next(),
            State::InIter2 => self.iter2.next(),
        }
    }

    /// Skips `n` items and pulls the one after them. Like `next`, the first
    /// call of any consuming operation decides the source.
    pub fn nth(&mut self, n: usize) -> (ret: Option<I1::Item>)
        ensures
            laws_hold(
                old(self).state(),
                old(self).first().obeys_prophetic_iter_laws(),
                old(self).first().remaining(),
                old(self).second().obeys_prophetic_iter_laws(),
            ) ==> laws_hold(
                final(self).state(),
                final(self).first().obeys_prophetic_iter_laws(),
                final(self).first().remaining(),
                final(self).second().obeys_prophetic_iter_laws(),
            ),
            laws_hold(
                old(self).state(),
                old(self).first().obeys_prophetic_iter_laws(),
                old(self).first().remaining(),
                old(self).second().obeys_prophetic_iter_laws(),
            ) ==> final(self).state() == committed(
                old(self).state(),
                old(self).first().remaining().len() > 0,
            ),
            laws_hold(
                old(self).state(),
                old(self).first().obeys_prophetic_iter_laws(),
                old(self).first().remaining(),
                old(self).second().obeys_prophetic_iter_laws(),
            ) ==> (ret, pending(
                final(self).state(),
                final(self).first().remaining(),
                final(self).second().remaining(),
            )) == skip_to(
                pending(
                    old(self).state(),
                    old(self).first().remaining(),
                    old(self).second().remaining(),
                ),
                n as nat,
            ),
            final(self).state() != State::Initial,
            old(self).state() != State::Initial ==> final(self).state() == old(self).state(),
            final(self).state() == State::InIter1 ==> final(self).second() == old(self).second(),
            old(self).state() == State::InIter2 ==> final(self).first() == old(self).first(),
    {
        match self.state {
            State::Initial => {
                let x = self.iter1.next();
                match x {
                    Some(_) => {
                        self.state = State::InIter1;
                        if n == 0 {
                            x
                        } else {
                            nth_of(&mut self.iter1, n - 1)
                        }
                    },
                    None => {
                        self.state = State::InIter2;
                        nth_of(&mut self.iter2, n)
                    },
                }
            },
            State::InIter1 => nth_of(&mut self.iter1, n),
            State::InIter2 => nth_of(&mut self.iter2, n),
        }
    }

    /// A lower bound and, where known, an upper bound on the number of items
    /// left, without consuming any: while undecided, the estimates of the two
    /// sources combined as `fallback_hint` says; afterwards the estimate of
    /// the chosen source. For sources that keep to the laws the estimate is
    /// sound: the lower bound is not above the number of items left, and the
    /// upper bound, where there is one, is not below it.
    pub fn size_hint(&self) -> (ret: (usize, Option<usize>))
        ensures
            laws_hold(
                self.state(),
                self.first().obeys_prophetic_iter_laws(),
                self.first().remaining(),
                self.second().obeys_prophetic_iter_laws(),
            ) ==> hint_holds(
                ret,
                pending(self.state(), self.first().remaining(), self.second().remaining()).len(),
            ),
    {
        match self.state {
            State::Initial => {
                let first = hint_of(&self.iter1);
                let second = hint_of(&self.iter2);
                merge_hints(first, second)
            },
            State::InIter1 => hint_of(&self.iter1),
            State::InIter2 => hint_of(&self.iter2),
        }
    }

    /// Combines `init` with every item left, in order, through `f`.
    pub fn fold<B, F: FnMut(B, I1::Item) -> B>(self, init: B, f: F) -> (ret: B)
        requires
            laws_hold(
                self.state(),
                self.first().obeys_prophetic_iter_laws(),
                self.first().remaining(),
                self.second().obeys_prophetic_iter_laws(),
            ),
            can_fold(f, init, pending(self.state(), self.first().remaining(), self.second().remaining())),
        ensures
            folds_to(
                f,
                init,
                pending(self.state(), self.first().remaining(), self.second().remaining()),
                ret,
            ),
    {
        let mut this = self;
        let mut f = f;
        let ghost f0 = f;
        let ghost a0 = this.iter1.remaining();
        match this.state {
            State::Initial => {
                match this.iter1.next() {
                    Some(x) => {
                        let acc = f(init, x);
                        proof {
                            lemma_can_fold_rest(f0, init, a0, acc);
                        }
                        let ret = fold_of(this.iter1, acc, f);
                        proof {
                            lemma_fold_by_steps(f0, init, a0, ret);
                        }
                        ret
                    },
                    None => fold_of(this.iter2, init, f),
                }
            },
            State::InIter1 => fold_of(this.iter1, init, f),
            State::InIter2 => fold_of(this.iter2, init, f),
        }
    }

    /// Consumes every item left and returns the final one, `None` if there was
    /// none.
    pub fn last(self) -> (ret: Option<I1::Item>)
        requires
            laws_hold(
                self.state(),
                self.first().obeys_prophetic_iter_laws(),
                self.first().remaining(),
                self.second().obeys_prophetic_iter_laws(),
            ),
        ensures
            ret == last_item(pending(self.state(), self.first().remaining(), self.second().remaining())),
    {
        let mut this = self;
        match this.state {
            State::Initial => {
                let x = this.iter1.next();
                match x {
                    Some(_) => {
                        match last_of(this.iter1) {
                            Some(y) => Some(y),
                            None => x,
                        }
                    },
                    None => last_of(this.iter2),
                }
            },
            State::InIter1 => last_of(this.iter1),
            State::InIter2 => last_of(this.iter2),
        }
    }

    /// Consumes every item left and returns how many there were.
    pub fn count(self) -> (ret: usize)
        requires
            laws_hold(
                self.state(),
                self.first().obeys_prophetic_iter_laws(),
                self.first().remaining(),
                self.second().obeys_prophetic_iter_laws(),
            ),
            pending(self.state(), self.first().remaining(), self.second().remaining()).len() <= usize::MAX,
        ensures
            ret == pending(self.state(), self.first().remaining(), self.second().remaining()).len(),
    {
        let mut this = self;
        match this.state {
            State::Initial => {
                match this.iter1.next() {
                    Some(_) => 1 + count_of(this.iter1),
                    None => count_of(this.iter2),
                }
            },
            State::InIter1 => count_of(this.iter1),
            State::InIter2 => count_of(this.iter2),
        }
    }
}

impl<I1, I2> Or<I1, I2> where I1: ExactSizeIterator, I2: ExactSizeIterator<Item = I1::Item> {
    /// The exact number of items left, for sources that know their exact
    /// lengths: computed as the size estimate is, from estimates that are
    /// exact.
    pub fn len(&self) -> (ret: usize)
        ensures
            laws_hold(
                self.state(),
                self.first().obeys_prophetic_iter_laws(),
                self.first().remaining(),
                self.second().obeys_prophetic_iter_laws(),
            ) ==> ret == pending(
                self.state(),
                self.first().remaining(),
                self.second().remaining(),
            ).len(),
    {
        match self.state {
            State::Initial => {
                let n1 = len_of(&self.iter1);
                let n2 = len_of(&self.iter2);
                merge_hints((n1, Some(n1)), (n2, Some(n2))).0
            },
            State::InIter1 => len_of(&self.iter1),
            State::InIter2 => len_of(&self.iter2),
        }
    }
}

/// Adds `or` to every iterator.
pub trait OrIterator: Sized {
    /// Pairs this iterator with a fallback: the result gives this iterator's
    /// items, or those of `other` when this one has none. Nothing is pulled
    /// from either until the result is consumed.
    fn or<I2: Iterator>(self, other: I2) -> (ret: Or<Self, I2>)
        ensures
            ret.first() == self,
            ret.second() == other,
            ret.state() == State::Initial,
    ;
}

impl<I1: Iterator> OrIterator for I1 {
    fn or<I2: Iterator>(self, other: I2) -> (ret: Or<I1, I2>) {
        Or { iter1: self, iter2: other, state: State::Initial }
    }
}

} // verus!
