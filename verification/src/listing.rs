//! The newest part of a list.

use vstd::prelude::*;

verus! {

/// Where the newest `limit` items of a list of `len` items begin.
pub open spec fn recent_start(len: int, limit: int) -> int {
    if limit >= len {
        0
    } else {
        len - limit
    }
}

/// The newest `limit` items of `items`, oldest first; all of them where there
/// are fewer.
pub open spec fn recent<T>(items: Seq<T>, limit: int) -> Seq<T> {
    items.subrange(recent_start(items.len() as int, limit), items.len() as int)
}

/// A list after `item` was appended under a cap of `limit` items: where the
/// list then exceeds the cap, its oldest item leaves.
pub open spec fn pushed_within<T>(items: Seq<T>, limit: int, item: T) -> Seq<T> {
    if items.len() + 1 > limit {
        items.push(item).drop_first()
    } else {
        items.push(item)
    }
}

/// Those of the first `n` items that are to be kept, in their order.
pub open spec fn kept<T>(items: Seq<T>, keep: spec_fn(T) -> bool, n: int) -> Seq<T>
    decreases n,
{
    if n <= 0 {
        Seq::empty()
    } else if keep(items[n - 1]) {
        kept(items, keep, n - 1).push(items[n - 1])
    } else {
        kept(items, keep, n - 1)
    }
}

/// Where the newest `limit` items of a list of `len` items begin.
pub fn start_of_recent(len: usize, limit: usize) -> (start: usize)
    ensures
        start == recent_start(len as int, limit as int),
        start <= len,
{
    if limit >= len {
        0
    } else {
        len - limit
    }
}

/// References to the newest `limit` items of `items`, oldest first.
pub fn recent_refs<T>(items: &Vec<T>, limit: usize) -> (r: Vec<&T>)
    ensures
        r@.len() == recent(items@, limit as int).len(),
        forall|i: int| 0 <= i < r@.len() ==> *#[trigger] r@[i] == recent(items@, limit as int)[i],
{
    let start = start_of_recent(items.len(), limit);
    let mut r: Vec<&T> = Vec::new();
    let mut i: usize = start;
    while i < items.len()
        invariant
            start <= i <= items.len(),
            start == recent_start(items@.len() as int, limit as int),
            r@.len() == i - start,
            forall|j: int| 0 <= j < r@.len() ==> *#[trigger] r@[j] == items@[start + j],
        decreases items.len() - i,
    {
        r.push(&items[i]);
        i += 1;
    }
    r
}

} // verus!
