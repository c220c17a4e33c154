//! The bulk operations of the standard `Iterator` trait on a source, each with
//! the contract that the standard library documents for it. These contracts
//! are taken on trust: they hold of any iterator that keeps to the trait's
//! documented behaviour.

use vstd::prelude::*;
use vstd::std_specs::iter::IteratorSpec;
use crate::hint::hint_holds;
use crate::model::{can_fold, folds_to, last_item};

verus! {

/// `Iterator::nth`: consumes the first `n` items and the one after them, and
/// returns that one. With `n` or fewer items left it consumes them all and
/// returns `None`. It returns whenever the iterator's own `next` does.
#[verifier::external_body]
pub(crate) fn nth_of<I: Iterator>(it: &mut I, n: usize) -> (ret: Option<I::Item>)
    ensures
        (*final(it)).obeys_prophetic_iter_laws() == (*old(it)).obeys_prophetic_iter_laws(),
        (*old(it)).obeys_prophetic_iter_laws() && n < (*old(it)).remaining().len() ==> {
            &&& ret == Some((*old(it)).remaining()[n as int])
            &&& (*final(it)).remaining() == (*old(it)).remaining().skip(n as int + 1)
        },
        (*old(it)).obeys_prophetic_iter_laws() && n >= (*old(it)).remaining().len() ==> {
            &&& ret is None
            &&& (*final(it)).remaining() == Seq::<I::Item>::empty()
        },
{
    it.nth(n)
}

/// `Iterator::last`: consumes the iterator and returns the final item that it
/// gave, `None` if it gave none. It does not return on an iterator that never
/// ends; the precondition admits only those that give finitely many items,
/// on which it returns whenever the iterator's own `next` does.
#[verifier::external_body]
pub(crate) fn last_of<I: Iterator>(it: I) -> (ret: Option<I::Item>)
    requires
        it.obeys_prophetic_iter_laws(),
    ensures
        ret == last_item(it.remaining()),
{
    it.last()
}

/// `Iterator::count`: consumes the iterator and returns how many items it
/// gave. It does not return on an iterator that never ends, and is not
/// defined for more than `usize::MAX` items; the precondition leaves both
/// out.
#[verifier::external_body]
pub(crate) fn count_of<I: Iterator>(it: I) -> (ret: usize)
    requires
        it.obeys_prophetic_iter_laws(),
        it.remaining().len() <= usize::MAX,
    ensures
        ret == it.remaining().len(),
{
    it.count()
}

/// `Iterator::fold`: consumes the iterator, applying `f` to the accumulator
/// and each item in turn, starting from `init`, and returns the final
/// accumulator. The precondition asks that the iterator gives finitely many
/// items and that `f` may be applied at each step.
#[verifier::external_body]
pub(crate) fn fold_of<I: Iterator, B, F: FnMut(B, I::Item) -> B>(it: I, init: B, f: F) -> (ret: B)
    requires
        it.obeys_prophetic_iter_laws(),
        can_fold(f, init, it.remaining()),
    ensures
        folds_to(f, init, it.remaining(), ret),
{
    it.fold(init, f)
}

/// `Iterator::size_hint`: a lower bound and, where known, an upper bound on
/// the number of items left. The trait's protocol asks every implementation
/// for a correct estimate; the standard library does not enforce it, so this
/// holds of an iterator that keeps to the protocol, as the other contracts
/// here do.
#[verifier::external_body]
pub(crate) fn hint_of<I: Iterator>(it: &I) -> (ret: (usize, Option<usize>))
    ensures
        it.obeys_prophetic_iter_laws() ==> hint_holds(ret, it.remaining().len()),
{
    it.size_hint()
}

/// `ExactSizeIterator::len`: the exact number of items left, as the trait
/// promises of every implementation.
#[verifier::external_body]
pub(crate) fn len_of<I: ExactSizeIterator>(it: &I) -> (ret: usize)
    ensures
        it.obeys_prophetic_iter_laws() ==> ret == it.remaining().len(),
{
    it.len()
}

} // verus!
