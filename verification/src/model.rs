//! The mathematical model of a fallback sequence: which of two sequences is
//! pending, and what each way of consuming a sequence gives.

use vstd::prelude::*;

verus! {

/// Which source an `Or` draws from.
#[derive(Clone, Copy, Debug, PartialEq, Eq, Structural)]
pub enum State {
    /// Nothing has been pulled yet; the first pull decides.
    Initial,
    /// The first source gave an element; only it is used from now on.
    InIter1,
    /// The first source was empty; only the second is used from now on.
    InIter2,
}

/// The state after one consuming operation: an undecided sequence commits to
/// the first source if that one has an item, else to the second; a decided one
/// stays where it is.
pub open spec fn committed(state: State, first_has_items: bool) -> State {
    match state {
        State::Initial => if first_has_items {
            State::InIter1
        } else {
            State::InIter2
        },
        State::InIter1 => State::InIter1,
        State::InIter2 => State::InIter2,
    }
}

/// The items that are still to come, given what each source still holds.
pub open spec fn pending<T>(state: State, first: Seq<T>, second: Seq<T>) -> Seq<T> {
    match state {
        State::Initial => if first.len() > 0 {
            first
        } else {
            second
        },
        State::InIter1 => first,
        State::InIter2 => second,
    }
}

/// Whether every source that will still be drawn from keeps to the laws of
/// iterators, given whether each one does: the first source unless the second
/// has been chosen; the second once it has been chosen, or while undecided
/// with a first source that has nothing. A source that will not be drawn from
/// is not asked anything.
pub open spec fn laws_hold<T>(state: State, first_obeys: bool, first: Seq<T>, second_obeys: bool) -> bool {
    &&& state != State::InIter2 ==> first_obeys
    &&& committed(state, first.len() > 0) == State::InIter2 ==> second_obeys
}

/// One pull: the head, if there is one, and what is left.
pub open spec fn step<T>(s: Seq<T>) -> (Option<T>, Seq<T>) {
    if s.len() > 0 {
        (Some(s[0]), s.drop_first())
    } else {
        (None, s)
    }
}

/// What is left after `n` pulls.
pub open spec fn after_steps<T>(s: Seq<T>, n: nat) -> Seq<T>
    decreases n,
{
    if n == 0 {
        s
    } else {
        after_steps(step(s).1, (n - 1) as nat)
    }
}

/// Skipping `n` items and taking the next: that item, if there is one, and
/// what is left.
pub open spec fn skip_to<T>(s: Seq<T>, n: nat) -> (Option<T>, Seq<T>) {
    if n < s.len() {
        (Some(s[n as int]), s.skip(n as int + 1))
    } else {
        (None, Seq::empty())
    }
}

/// The final item, if there is any.
pub open spec fn last_item<T>(s: Seq<T>) -> Option<T> {
    if s.len() > 0 {
        Some(s.last())
    } else {
        None
    }
}

/// Every item that pulling until the end gives, in the order given.
pub open spec fn drained<T>(s: Seq<T>) -> Seq<T>
    decreases s.len(),
{
    match step(s).0 {
        Some(x) => seq![x] + drained(step(s).1),
        None => Seq::empty(),
    }
}

/// Whether a step that is allowed where `pre` holds, and gives what `post`
/// relates, may be taken along `items`, left to right, starting from `init`:
/// each step is allowed on whatever the one before it gave.
pub open spec fn can_fold_by<T, B>(
    pre: spec_fn(B, T) -> bool,
    post: spec_fn(B, T, B) -> bool,
    init: B,
    items: Seq<T>,
) -> bool
    decreases items.len(),
{
    if items.len() == 0 {
        true
    } else {
        &&& pre(init, items[0])
        &&& forall|mid: B| #[trigger]
            post(init, items[0], mid) ==> can_fold_by(pre, post, mid, items.drop_first())
    }
}

/// Whether `out` is a result of taking a step that gives what `post` relates,
/// from `init` and each of `items` in turn, left to right.
pub open spec fn folds_to_by<T, B>(post: spec_fn(B, T, B) -> bool, init: B, items: Seq<T>, out: B) -> bool
    decreases items.len(),
{
    if items.len() == 0 {
        out == init
    } else {
        exists|mid: B| #[trigger]
            post(init, items[0], mid) && folds_to_by(post, mid, items.drop_first(), out)
    }
}

/// Whether `f` may be applied along `items`, left to right, starting from
/// `init`: each application is allowed on whatever the one before it gave.
pub open spec fn can_fold<T, B, F: FnMut(B, T) -> B>(f: F, init: B, items: Seq<T>) -> bool {
    can_fold_by(|b: B, x: T| f.requires((b, x)), |b: B, x: T, r: B| f.ensures((b, x), r), init, items)
}

/// Whether `out` is a result of applying `f` to `init` and each of `items` in
/// turn, left to right.
pub open spec fn folds_to<T, B, F: FnMut(B, T) -> B>(f: F, init: B, items: Seq<T>, out: B) -> bool {
    folds_to_by(|b: B, x: T, r: B| f.ensures((b, x), r), init, items, out)
}

} // verus!
