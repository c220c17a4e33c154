//! Size estimates: how the estimates of the two sources combine into the
//! estimate of the fallback sequence, and why the result is sound.

use vstd::prelude::*;

verus! {

/// Whether `hint` is a sound estimate of a sequence of `n` items: its lower
/// bound is not above `n`, and its upper bound, if it has one, is not below.
pub open spec fn hint_holds(hint: (usize, Option<usize>), n: nat) -> bool {
    &&& hint.0 <= n
    &&& hint.1 matches Some(high) ==> n <= high
}

/// The estimate that stands for exactly `n` items.
pub open spec fn exact_hint(n: usize) -> (usize, Option<usize>) {
    (n, Some(n))
}

/// The larger of two upper bounds, unknown if either is.
pub open spec fn larger_bound(a: Option<usize>, b: Option<usize>) -> Option<usize> {
    match (a, b) {
        (Some(x), Some(y)) => Some(if x >= y { x } else { y }),
        _ => None,
    }
}

/// The estimate of an undecided fallback sequence, from those of its sources.
/// A first source that is known to be empty leaves the second one's estimate.
/// A first source that may be empty leaves a lower bound of one if the second
/// is known to have an item, else zero, and the larger of the upper bounds.
/// A first source that is known to have an item leaves its own estimate.
pub open spec fn fallback_hint(first: (usize, Option<usize>), second: (usize, Option<usize>)) -> (
    usize,
    Option<usize>,
) {
    if first.1 == Some(0usize) {
        second
    } else if first.0 == 0 {
        (if second.0 > 0 { 1usize } else { 0usize }, larger_bound(first.1, second.1))
    } else {
        first
    }
}

/// Combines the estimates of the two sources of an undecided fallback
/// sequence.
pub fn merge_hints(first: (usize, Option<usize>), second: (usize, Option<usize>)) -> (ret: (
    usize,
    Option<usize>,
))
    ensures
        ret == fallback_hint(first, second),
{
    match first {
        (_, Some(0)) => second,
        (0, high1) => {
            let low: usize = if second.0 > 0 { 1 } else { 0 };
            let high = match (high1, second.1) {
                (Some(h1), Some(h2)) => Some(if h1 >= h2 { h1 } else { h2 }),
                _ => None,
            };
            (low, high)
        },
        _ => first,
    }
}

/// Soundness of the estimate: if the first source's estimate is sound for the
/// number of items that it holds, and the second one's is too wherever the
/// first source holds nothing, the combined estimate is sound for the number
/// of items that the fallback sequence will give. In particular its lower
/// bound is never above that number, and when its two bounds are equal they
/// are that number. The estimate of a second source that will not be drawn
/// from may be anything.
pub proof fn lemma_hint_sound(first: (usize, Option<usize>), second: (usize, Option<usize>), n1: nat, n2: nat)
    requires
        hint_holds(first, n1),
        n1 == 0 ==> hint_holds(second, n2),
    ensures
        hint_holds(fallback_hint(first, second), if n1 > 0 { n1 } else { n2 }),
        fallback_hint(first, second).0 <= (if n1 > 0 { n1 } else { n2 }),
        fallback_hint(first, second).1 == Some(fallback_hint(first, second).0) ==> fallback_hint(
            first,
            second,
        ).0 == (if n1 > 0 { n1 } else { n2 }),
{
}

/// Exact sources give an exact estimate: if each source reports its exact
/// length, the combined estimate has the first length if that is positive,
/// else the second, as both of its bounds.
pub proof fn lemma_exact_hint(n1: usize, n2: usize)
    ensures
        fallback_hint(exact_hint(n1), exact_hint(n2)) == exact_hint(if n1 > 0 { n1 } else { n2 }),
{
}

} // verus!
