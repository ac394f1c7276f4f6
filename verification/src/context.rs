//! The selection of an ordered container: indices into its elements, and how
//! they follow the elements when the container changes.

use vstd::prelude::*;
use vstd::pervasive::unreached;

verus! {

/// Whether every index of `context` points into a container of `len` elements.
pub open spec fn in_bounds(context: Seq<usize>, len: int) -> bool {
    forall|i: int| 0 <= i < context.len() ==> (#[trigger] context[i]) < len
}

/// Where the index `i` points after an element was inserted at `k`.
pub open spec fn after_insert(i: usize, k: int) -> usize {
    if i >= k {
        (i + 1) as usize
    } else {
        i
    }
}

/// The selection after an element was inserted at `k`: every index at or
/// after `k` moves up by one, so that it points to the element it pointed to.
pub open spec fn shifted_up(context: Seq<usize>, k: int) -> Seq<usize> {
    context.map_values(|i: usize| after_insert(i, k))
}

/// The selection after the element at `k` was removed: the indices that
/// pointed to it are gone, those after it move down by one, in the same order.
pub open spec fn shifted_down(context: Seq<usize>, k: int) -> Seq<usize>
    decreases context.len(),
{
    if context.len() == 0 {
        Seq::empty()
    } else {
        let before = shifted_down(context.drop_last(), k);
        let i = context.last();
        if i < k {
            before.push(i)
        } else if i > k {
            before.push((i - 1) as usize)
        } else {
            before
        }
    }
}

/// The indices of `context` that point into a container of `len` elements, in
/// the same order.
pub open spec fn kept_below(context: Seq<usize>, len: int) -> Seq<usize>
    decreases context.len(),
{
    if context.len() == 0 {
        Seq::empty()
    } else {
        let before = kept_below(context.drop_last(), len);
        if context.last() < len {
            before.push(context.last())
        } else {
            before
        }
    }
}

/// What the selection holds after the element at `k` was removed: each index
/// that was before `k`, and each index that was after `k`, less one.
pub proof fn lemma_shifted_down_holds(context: Seq<usize>, k: int, x: usize)
    requires
        0 <= k,
    ensures
        shifted_down(context, k).contains(x) <==> exists|i: int|
            0 <= i < context.len() && ((#[trigger] context[i]) < k && x == context[i]
                || context[i] > k && x == context[i] - 1),
    decreases context.len(),
{
    if context.len() > 0 {
        let front = context.drop_last();
        let last = context.last();
        let before = shifted_down(front, k);
        lemma_shifted_down_holds(front, k, x);
        assert(forall|i: int| 0 <= i < front.len() ==> front[i] == context[i]);
        let from_last = last < k && x == last || last > k && x == last - 1;
        if shifted_down(context, k).contains(x) {
            let j = choose|j: int|
                0 <= j < shifted_down(context, k).len() && shifted_down(context, k)[j] == x;
            if j < before.len() {
                assert(before[j] == x);
                assert(before.contains(x));
                let i = choose|i: int|
                    0 <= i < front.len() && ((#[trigger] front[i]) < k && x == front[i]
                        || front[i] > k && x == front[i] - 1);
                assert(context[i] == front[i]);
            } else {
                let after = shifted_down(context, k);
                if last < k {
                    assert(after == before.push(last));
                    assert(after[j] == last);
                } else if last > k {
                    assert(after == before.push((last - 1) as usize));
                    assert(after[j] == (last - 1) as usize);
                } else {
                    assert(after == before);
                }
                assert(from_last);
                assert(context[context.len() - 1] == last);
            }
        }
        if exists|i: int|
            0 <= i < context.len() && ((#[trigger] context[i]) < k && x == context[i]
                || context[i] > k && x == context[i] - 1) {
            let i = choose|i: int|
                0 <= i < context.len() && ((#[trigger] context[i]) < k && x == context[i]
                    || context[i] > k && x == context[i] - 1);
            if i < front.len() {
                assert(front[i] == context[i]);
                assert(before.contains(x));
                let j = choose|j: int| 0 <= j < before.len() && before[j] == x;
                assert(shifted_down(context, k)[j] == x);
            } else {
                assert(from_last);
                assert(shifted_down(context, k) == before.push(x));
                assert(shifted_down(context, k)[before.len() as int] == x);
            }
        }
    }
}

/// What the selection holds after an element was inserted at `k`: each index
/// that was before `k`, and each index that was at or after `k`, plus one.
pub proof fn lemma_shifted_up_holds(context: Seq<usize>, k: int, x: usize)
    ensures
        shifted_up(context, k).contains(x) <==> exists|i: int|
            0 <= i < context.len() && ((#[trigger] context[i]) < k && x == context[i]
                || context[i] >= k && x == (context[i] + 1) as usize),
{
    let after = shifted_up(context, k);
    if after.contains(x) {
        let j = choose|j: int| 0 <= j < after.len() && after[j] == x;
        assert(after[j] == after_insert(context[j], k));
    }
    if exists|i: int|
        0 <= i < context.len() && ((#[trigger] context[i]) < k && x == context[i] || context[i]
            >= k && x == (context[i] + 1) as usize) {
        let i = choose|i: int|
            0 <= i < context.len() && ((#[trigger] context[i]) < k && x == context[i]
                || context[i] >= k && x == (context[i] + 1) as usize);
        assert(after[i] == x);
    }
}

/// A selection that pointed into `len` elements points into `len + 1` of them
/// after an insertion.
pub proof fn lemma_shifted_up_in_bounds(context: Seq<usize>, k: int, len: int)
    requires
        in_bounds(context, len),
        0 <= k <= len < usize::MAX,
    ensures
        in_bounds(shifted_up(context, k), len + 1),
        shifted_up(context, k).len() == context.len(),
{
}

/// A selection that pointed into `len` elements points into `len - 1` of them
/// after a removal, and holds no more indices than before.
pub proof fn lemma_shifted_down_in_bounds(context: Seq<usize>, k: int, len: int)
    requires
        in_bounds(context, len),
        0 <= k < len,
    ensures
        in_bounds(shifted_down(context, k), len - 1),
        shifted_down(context, k).len() <= context.len(),
    decreases context.len(),
{
    if context.len() > 0 {
        lemma_shifted_down_in_bounds(context.drop_last(), k, len);
    }
}

/// Removing the last of `len` elements takes from the selection the indices
/// that pointed to it, and nothing else.
pub proof fn lemma_shifted_down_last(context: Seq<usize>, len: int)
    requires
        in_bounds(context, len),
        0 < len,
    ensures
        shifted_down(context, len - 1) == kept_below(context, len - 1),
    decreases context.len(),
{
    if context.len() > 0 {
        lemma_shifted_down_last(context.drop_last(), len);
    }
}

/// Moves the selection up for an insertion at `k`.
pub fn shift_up(context: &mut Vec<usize>, k: usize, len: usize)
    requires
        in_bounds(old(context)@, len as int),
        k <= len < usize::MAX,
    ensures
        final(context)@ == shifted_up(old(context)@, k as int),
        in_bounds(final(context)@, len + 1),
{
    let mut n: usize = 0;
    while n < context.len()
        invariant
            n <= context.len(),
            context.len() == old(context).len(),
            forall|i: int| 0 <= i < n ==> context@[i] == after_insert(old(context)@[i], k as int),
            forall|i: int| n <= i < context.len() ==> context@[i] == old(context)@[i],
            in_bounds(old(context)@, len as int),
            len < usize::MAX,
        decreases context.len() - n,
    {
        let i = context[n];
        if i >= k {
            context[n] = i + 1;
        }
        n += 1;
    }
    proof {
        assert(context@ =~= shifted_up(old(context)@, k as int));
        lemma_shifted_up_in_bounds(old(context)@, k as int, len as int);
    }
}

/// The selection after the element at `k` was removed.
pub fn shift_down(context: &Vec<usize>, k: usize, len: usize) -> (result: Vec<usize>)
    requires
        in_bounds(context@, len as int),
        k < len,
    ensures
        result@ == shifted_down(context@, k as int),
        in_bounds(result@, len - 1),
{
    let mut result: Vec<usize> = Vec::new();
    let mut n: usize = 0;
    while n < context.len()
        invariant
            n <= context.len(),
            result@ == shifted_down(context@.take(n as int), k as int),
            in_bounds(context@, len as int),
            k < len,
        decreases context.len() - n,
    {
        let i = context[n];
        assert(context@.take(n + 1).drop_last() =~= context@.take(n as int));
        if i < k {
            result.push(i);
        } else if i > k {
            result.push(i - 1);
        }
        n += 1;
    }
    proof {
        assert(context@.take(n as int) =~= context@);
        lemma_shifted_down_in_bounds(context@, k as int, len as int);
    }
    result
}

/// Stops where an index of `context` points to none of `len` elements, which
/// no caller that keeps to the contract lets happen.
pub fn check_bounds(context: &Vec<usize>, len: usize)
    requires
        in_bounds(context@, len as int),
{
    let mut n: usize = 0;
    while n < context.len()
        invariant
            n <= context.len(),
            in_bounds(context@, len as int),
        decreases context.len() - n,
    {
        if context[n] >= len {
            unreached::<()>();
        }
        n += 1;
    }
}

} // verus!
