//! What holds of every fallback sequence, proved over the model.

use vstd::prelude::*;
use crate::model::{
    after_steps, can_fold, can_fold_by, committed, drained, folds_to, folds_to_by, pending, skip_to, step,
    State,
};

verus! {

/// Pulling until the end gives exactly the items of the sequence, in order.
pub proof fn lemma_drained_is_all<T>(s: Seq<T>)
    ensures
        drained(s) == s,
    decreases s.len(),
{
    if s.len() > 0 {
        lemma_drained_is_all(s.drop_first());
        assert(seq![s[0]] + s.drop_first() =~= s);
    } else {
        assert(s =~= Seq::<T>::empty());
    }
}

/// The whole output of an undecided fallback sequence is the whole of the
/// first source if that has any item, else the whole of the second.
pub proof fn lemma_full_output<T>(first: Seq<T>, second: Seq<T>)
    ensures
        drained(pending(State::Initial, first, second)) == (if first.len() > 0 {
            first
        } else {
            second
        }),
{
    lemma_drained_is_all(pending(State::Initial, first, second));
}

/// The decision is made once: a decided sequence stays with its source
/// whatever the sources hold later, and its items are those of that source
/// alone.
pub proof fn lemma_decision_is_final<T>(state: State, had_items: bool, first: Seq<T>, second: Seq<T>)
    ensures
        committed(state, had_items) != State::Initial,
        committed(committed(state, had_items), first.len() > 0) == committed(state, had_items),
        committed(state, had_items) == State::InIter1 ==> pending(committed(state, had_items), first, second)
            == first,
        committed(state, had_items) == State::InIter2 ==> pending(committed(state, had_items), first, second)
            == second,
{
}

/// What `n` pulls leave: the sequence without its first `n` items, or nothing
/// if it had no more than `n`.
pub proof fn lemma_after_steps<T>(s: Seq<T>, n: nat)
    ensures
        after_steps(s, n) == (if n <= s.len() {
            s.skip(n as int)
        } else {
            Seq::empty()
        }),
    decreases n,
{
    if n == 0 {
        assert(s.skip(0) =~= s);
    } else {
        lemma_after_steps(step(s).1, (n - 1) as nat);
        if s.len() > 0 {
            if n <= s.len() {
                assert(s.drop_first().skip(n - 1) =~= s.skip(n as int));
            }
        } else {
            assert(s.skip(0) =~= Seq::<T>::empty());
        }
    }
}

/// Skipping to the `n`-th item is `n` pulls and one more: it returns what the
/// last of these pulls returns and leaves what that pull leaves.
pub proof fn lemma_skip_is_repeated_step<T>(s: Seq<T>, n: nat)
    ensures
        skip_to(s, n) == step(after_steps(s, n)),
{
    lemma_after_steps(s, n);
    if n < s.len() {
        assert(s.skip(n as int).drop_first() =~= s.skip(n as int + 1));
    } else if n == s.len() {
        assert(s.skip(n as int) =~= Seq::<T>::empty());
    }
}

/// If `f` may be applied along the items, it may be applied along the rest of
/// them from whatever it gives for the first.
pub proof fn lemma_can_fold_rest<T, B, F: FnMut(B, T) -> B>(f: F, init: B, items: Seq<T>, mid: B)
    requires
        items.len() > 0,
        can_fold(f, init, items),
        f.ensures((init, items[0]), mid),
    ensures
        can_fold(f, mid, items.drop_first()),
{
    let pre = |b: B, x: T| f.requires((b, x));
    let post = |b: B, x: T, r: B| f.ensures((b, x), r);
    assert(can_fold_by(pre, post, init, items));
    assert(post(init, items[0], mid));
    assert(can_fold_by(pre, post, mid, items.drop_first()));
}

/// Folding is pulling and applying in turn: with no item left the result is
/// the accumulator; else it is a result of folding what the pull leaves,
/// starting from what `f` gives for the accumulator and the pulled item.
pub proof fn lemma_fold_by_steps<T, B, F: FnMut(B, T) -> B>(f: F, init: B, s: Seq<T>, out: B)
    ensures
        folds_to(f, init, s, out) <==> (match step(s).0 {
            Some(x) => exists|mid: B| #[trigger]
                f.ensures((init, x), mid) && folds_to(f, mid, step(s).1, out),
            None => out == init,
        }),
{
    let post = |b: B, x: T, r: B| f.ensures((b, x), r);
    assert(folds_to(f, init, s, out) == folds_to_by(post, init, s, out));
    if s.len() > 0 {
        if folds_to(f, init, s, out) {
            let mid = choose|mid: B| #[trigger]
                post(init, s[0], mid) && folds_to_by(post, mid, s.drop_first(), out);
            assert(f.ensures((init, s[0]), mid) && folds_to(f, mid, step(s).1, out));
        }
        if exists|mid: B| #[trigger] f.ensures((init, s[0]), mid) && folds_to(f, mid, step(s).1, out) {
            let mid = choose|mid: B| #[trigger]
                f.ensures((init, s[0]), mid) && folds_to(f, mid, step(s).1, out);
            assert(post(init, s[0], mid) && folds_to_by(post, mid, s.drop_first(), out));
        }
    }
}

} // verus!
