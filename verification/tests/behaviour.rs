use or_iterator::hint::merge_hints;
use or_iterator::{Or, OrIterator};
use std::iter::{empty, from_fn, once, repeat};

fn pull_all<I1, I2>(or: &mut Or<I1, I2>) -> Vec<I1::Item>
where
    I1: Iterator,
    I2: Iterator<Item = I1::Item>,
{
    let mut out = Vec::new();
    while let Some(x) = or.next() {
        out.push(x);
    }
    out
}

#[test]
fn full_output_is_first_when_first_has_items() {
    let mut or = vec![1, 2, 3].into_iter().or(vec![4, 5].into_iter());
    assert_eq!(vec![1, 2, 3], pull_all(&mut or));
}

#[test]
fn full_output_is_second_when_first_is_empty() {
    let mut or = Vec::<i32>::new().into_iter().or(vec![4, 5].into_iter());
    assert_eq!(vec![4, 5], pull_all(&mut or));
}

#[test]
fn full_output_is_empty_when_both_are_empty() {
    let mut or = empty::<i32>().or(empty::<i32>());
    assert_eq!(Vec::<i32>::new(), pull_all(&mut or));
    assert_eq!(None, or.next());
}

#[test]
fn exhausted_first_does_not_fall_back() {
    let mut or = once(1).or(vec![3, 4].into_iter());
    assert_eq!(Some(1), or.next());
    assert_eq!(None, or.next());
    assert_eq!(None, or.next());
    assert_eq!(None, or.nth(0));
    assert_eq!(0, or.count());
}

#[test]
fn committed_second_never_returns_to_first() {
    let mut calls = 0;
    let first = from_fn(|| {
        calls += 1;
        None::<i32>
    });
    let mut or = first.or(vec![7, 8, 9].into_iter());
    assert_eq!(Some(7), or.next());
    assert_eq!(Some(8), or.next());
    assert_eq!(Some(9), or.next());
    assert_eq!(None, or.next());
    drop(or);
    assert_eq!(1, calls);
}

#[test]
fn committed_first_never_touches_second() {
    let mut calls = 0;
    let second = from_fn(|| {
        calls += 1;
        Some(0)
    });
    let mut or = vec![1, 2].into_iter().or(second);
    assert_eq!(Some(1), or.next());
    assert_eq!(Some(2), or.nth(0));
    assert_eq!(None, or.next());
    assert_eq!(None, or.last());
    assert_eq!(0, calls);
}

#[test]
fn nth_commits_to_second_when_first_is_empty() {
    let mut or = Vec::<i32>::new().into_iter().or(vec![4, 5, 6].into_iter());
    assert_eq!(Some(4), or.nth(0));
    assert_eq!(Some(5), or.next());
    assert_eq!(Some(6), or.nth(0));
    assert_eq!(None, or.nth(0));
}

#[test]
fn nth_equals_repeated_next() {
    for n in 1..6usize {
        for first in [vec![10, 20, 30, 40], vec![]] {
            let second = vec![1, 2, 3];
            let mut stepped = first.clone().into_iter().or(second.clone().into_iter());
            let mut seen = Vec::new();
            for _ in 0..n {
                seen.push(stepped.next());
            }
            let mut skipped = first.into_iter().or(second.into_iter());
            assert_eq!(seen[n - 1], skipped.nth(n - 1));
            assert_eq!(stepped.next(), skipped.next());
            assert_eq!(pull_all(&mut stepped), pull_all(&mut skipped));
        }
    }
}

#[test]
fn nth_past_the_end_consumes_everything() {
    let mut or = vec![1, 2, 3].into_iter().or(vec![4, 5].into_iter());
    assert_eq!(None, or.nth(3));
    assert_eq!(None, or.next());
    assert_eq!((0, Some(0)), or.size_hint());
}

#[test]
fn fold_applies_in_yield_order() {
    let or = vec![1, 2, 3].into_iter().or(vec![4, 5].into_iter());
    assert_eq!(123, or.fold(0, |acc, x| acc * 10 + x));

    let or = Vec::<i32>::new().into_iter().or(vec![4, 5].into_iter());
    assert_eq!(45, or.fold(0, |acc, x| acc * 10 + x));

    let or = empty::<i32>().or(empty::<i32>());
    assert_eq!(7, or.fold(7, |acc, x| acc * 10 + x));
}

#[test]
fn fold_equals_stepwise_application() {
    let mut stepped = vec![3, 1, 4, 1, 5].into_iter().or(vec![9].into_iter());
    let mut acc = 2;
    while let Some(x) = stepped.next() {
        acc = acc * 3 - x;
    }
    let or = vec![3, 1, 4, 1, 5].into_iter().or(vec![9].into_iter());
    assert_eq!(acc, or.fold(2, |a, x| a * 3 - x));
}

#[test]
fn fold_after_commitment_uses_the_rest() {
    let mut or = vec![1, 2, 3].into_iter().or(vec![4, 5].into_iter());
    assert_eq!(Some(1), or.next());
    assert_eq!(23, or.fold(0, |acc, x| acc * 10 + x));

    let mut or = Vec::<i32>::new().into_iter().or(vec![4, 5, 6].into_iter());
    assert_eq!(Some(4), or.next());
    assert_eq!(56, or.fold(0, |acc, x| acc * 10 + x));
}

#[test]
fn last_falls_back_to_the_probed_item() {
    let or = once(1).or(once(3));
    assert_eq!(Some(1), or.last());
}

#[test]
fn last_of_nothing_is_none() {
    let or = empty::<i32>().or(empty::<i32>());
    assert_eq!(None, or.last());
}

#[test]
fn last_after_commitment() {
    let mut or = vec![1, 2, 3].into_iter().or(vec![4, 5].into_iter());
    assert_eq!(Some(1), or.next());
    assert_eq!(Some(3), or.last());

    let mut or = Vec::<i32>::new().into_iter().or(vec![4, 5].into_iter());
    assert_eq!(Some(4), or.next());
    assert_eq!(Some(5), or.last());
}

#[test]
fn count_after_commitment() {
    let mut or = vec![1, 2, 3].into_iter().or(vec![4, 5].into_iter());
    assert_eq!(Some(1), or.next());
    assert_eq!(2, or.count());

    let mut or = Vec::<i32>::new().into_iter().or(vec![4, 5].into_iter());
    assert_eq!(Some(4), or.next());
    assert_eq!(1, or.count());

    let or = empty::<i32>().or(empty::<i32>());
    assert_eq!(0, or.count());
}

#[test]
fn len_follows_consumption() {
    let mut or = vec![1, 2, 3].into_iter().or(vec![4, 5].into_iter());
    assert_eq!(3, or.len());
    assert_eq!(Some(1), or.next());
    assert_eq!(2, or.len());
    assert_eq!(Some(3), or.nth(1));
    assert_eq!(0, or.len());

    let mut or = Vec::<i32>::new().into_iter().or(vec![4, 5].into_iter());
    assert_eq!(2, or.len());
    assert_eq!(Some(4), or.next());
    assert_eq!(1, or.len());
}

#[test]
fn size_hint_first_known_empty_is_second() {
    let or = Vec::<i32>::new().into_iter().or(vec![4, 5].into_iter());
    assert_eq!((2, Some(2)), or.size_hint());
}

#[test]
fn size_hint_first_known_nonempty_is_first() {
    let or = vec![1, 2, 3].into_iter().or(vec![4, 5].into_iter());
    assert_eq!((3, Some(3)), or.size_hint());
}

#[test]
fn size_hint_first_maybe_empty() {
    let first = vec![1, 2, 3].into_iter().filter(|x| *x > 5);
    let or = first.or(vec![4, 5].into_iter());
    assert_eq!((1, Some(3)), or.size_hint());

    let first = vec![1].into_iter().filter(|x| *x > 5);
    let or = first.or(vec![4, 5].into_iter());
    assert_eq!((1, Some(2)), or.size_hint());

    let first = vec![1, 2, 3].into_iter().filter(|x| *x > 5);
    let second = vec![4, 5].into_iter().filter(|x| *x > 5);
    let or = first.or(second);
    assert_eq!((0, Some(3)), or.size_hint());
}

#[test]
fn size_hint_unknown_upper_bound() {
    let first = from_fn(|| None::<i32>);
    let or = first.or(vec![4, 5].into_iter());
    assert_eq!((1, None), or.size_hint());

    let first = vec![1].into_iter().filter(|x| *x > 5);
    let or = first.or(from_fn(|| None::<i32>));
    assert_eq!((0, None), or.size_hint());
}

#[test]
fn size_hint_after_commitment_is_the_chosen_source() {
    let first = vec![1, 2, 3].into_iter().filter(|x| *x > 1);
    let mut or = first.or(vec![4, 5, 6, 7, 8].into_iter());
    assert_eq!((1, Some(5)), or.size_hint());
    assert_eq!(Some(2), or.next());
    assert_eq!((0, Some(1)), or.size_hint());

    let first = vec![1, 2, 3].into_iter().filter(|x| *x > 5);
    let mut or = first.or(vec![4, 5].into_iter());
    assert_eq!(Some(4), or.next());
    assert_eq!((1, Some(1)), or.size_hint());
}

#[test]
fn size_hint_is_sound() {
    let cases: Vec<(Vec<i32>, Vec<i32>)> = vec![
        (vec![], vec![]),
        (vec![], vec![4, 5]),
        (vec![1, 2, 3], vec![4, 5]),
        (vec![9, 1], vec![7, 8, 9]),
        (vec![1], vec![]),
    ];
    for (a, b) in cases {
        let or = a.clone().into_iter().filter(|x| *x > 5).or(b.clone().into_iter().filter(|x| *x > 5));
        let (low, high) = or.size_hint();
        let n = or.count();
        assert!(low <= n);
        assert!(high.map_or(true, |h| n <= h));

        let or = a.clone().into_iter().or(b.clone().into_iter());
        let (low, high) = or.size_hint();
        assert_eq!(Some(low), high);
        assert_eq!(low, or.len());
        assert_eq!(low, or.count());
        assert_eq!(low, if a.len() > 0 { a.len() } else { b.len() });
    }
}

#[test]
fn merge_hints_known_empty_first() {
    assert_eq!((2, Some(7)), merge_hints((0, Some(0)), (2, Some(7))));
    assert_eq!((4, None), merge_hints((0, Some(0)), (4, None)));
    assert_eq!((2, Some(7)), merge_hints((3, Some(0)), (2, Some(7))));
}

#[test]
fn merge_hints_maybe_empty_first() {
    assert_eq!((1, Some(7)), merge_hints((0, Some(3)), (2, Some(7))));
    assert_eq!((1, Some(9)), merge_hints((0, Some(9)), (2, Some(7))));
    assert_eq!((0, Some(9)), merge_hints((0, Some(9)), (0, Some(7))));
    assert_eq!((1, None), merge_hints((0, None), (5, Some(7))));
    assert_eq!((1, None), merge_hints((0, Some(3)), (5, None)));
    assert_eq!((0, None), merge_hints((0, None), (0, None)));
}

#[test]
fn merge_hints_nonempty_first() {
    assert_eq!((3, Some(4)), merge_hints((3, Some(4)), (2, Some(7))));
    assert_eq!((1, None), merge_hints((1, None), (0, Some(0))));
}

#[test]
fn merge_hints_of_exact_lengths() {
    for n1 in 0..4usize {
        for n2 in 0..4usize {
            let n = if n1 > 0 { n1 } else { n2 };
            assert_eq!((n, Some(n)), merge_hints((n1, Some(n1)), (n2, Some(n2))));
        }
    }
}

#[test]
fn endless_second_is_never_read_when_first_has_items() {
    let or = vec![1, 2].into_iter().or(repeat(0));
    assert_eq!((2, Some(2)), or.size_hint());
    assert_eq!(Some(2), or.last());

    let or = vec![1, 2].into_iter().or(repeat(0));
    assert_eq!(2, or.count());

    let or = vec![1, 2].into_iter().or(repeat(0));
    assert_eq!(12, or.fold(0, |acc, x| acc * 10 + x));

    let mut or = vec![1, 2].into_iter().or(repeat(0));
    assert_eq!(Some(2), or.nth(1));
    assert_eq!(None, or.next());
}
