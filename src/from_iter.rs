use vstd::prelude::*;
use vstd::std_specs::iter::IteratorSpec;
use crate::arc::{Arc, ArcInner};
use crate::disposal::Disposal;
use crate::arc::UniqueArc;

verus! {

/// Relies on `Iterator::size_hint`: the bounds the iterator reports on how
/// many items remain. Nothing holds the iterator to them.
#[verifier::external_body]
fn bounds_of<I: Iterator>(it: &I) -> (usize, Option<usize>) {
    it.size_hint()
}

/// Relies on `Iterator::collect`: the remaining items, in order.
#[verifier::external_body]
fn collect_rest<I: Iterator>(it: I) -> (r: Vec<I::Item>)
    ensures
        it.obeys_prophetic_iter_laws() ==> r@ == it.remaining(),
{
    it.collect()
}

/// The number of items that an iterator's reported bounds pin down: the lower
/// bound, when the upper bound is known and equal to it.
pub fn exact_len(bounds: (usize, Option<usize>)) -> (r: Option<usize>)
    ensures
        r == (if bounds.1 == Some(bounds.0) { Some(bounds.0) } else { None::<usize> }),
{
    match bounds.1 {
        Some(upper) => if upper == bounds.0 {
            Some(upper)
        } else {
            None
        },
        None => None,
    }
}

/// Takes at most `n` items from `it`, in order, into a `Vec` allocated for
/// `n`, and hands back the iterator with the items it has left.
pub fn take_up_to<I: Iterator>(it: I, n: usize) -> (r: (Vec<I::Item>, I))
    ensures
        r.0@.len() <= n,
        r.1.obeys_prophetic_iter_laws() == it.obeys_prophetic_iter_laws(),
        it.obeys_prophetic_iter_laws() ==> r.0@ + r.1.remaining() == it.remaining(),
{
    let mut it = it;
    let ghost start = it;
    let mut v: Vec<I::Item> = Vec::with_capacity(n);
    let mut i: usize = 0;
    while i < n
        invariant
            i <= n,
            v@.len() <= i,
            it.obeys_prophetic_iter_laws() == start.obeys_prophetic_iter_laws(),
            start.obeys_prophetic_iter_laws() ==> v@ + it.remaining() == start.remaining(),
        decreases n - i,
    {
        match it.next() {
            Some(x) => {
                v.push(x);
                i = i + 1;
            },
            None => {
                i = n;
            },
        }
    }
    (v, it)
}

/// All the items of `items`, in order. When the iterator's bounds agree, the
/// `Vec` is allocated once for that many; otherwise the items are collected
/// first. Items beyond an exact bound that turned out wrong are kept too.
pub fn collect_items<I: Iterator>(items: I) -> (r: Vec<I::Item>)
    ensures
        items.obeys_prophetic_iter_laws() ==> r@ == items.remaining(),
{
    let mut it = items;
    match exact_len(bounds_of(&it)) {
        Some(n) => {
            let (mut v, it) = take_up_to(it, n);
            let mut rest = collect_rest(it);
            v.append(&mut rest);
            v
        },
        None => collect_rest(it),
    }
}

impl<A, S: Disposal<Box<ArcInner<Vec<A>>>>> UniqueArc<Vec<A>, S> {
    /// A new allocation that holds the items of `items`, in order.
    pub fn from_iter<I: Iterator<Item = A>>(items: I) -> (r: Self)
        ensures
            items.obeys_prophetic_iter_laws() ==> r.payload()@ == items.remaining(),
    {
        UniqueArc::new(collect_items(items))
    }
}

impl<A, S: Disposal<Box<ArcInner<Vec<A>>>>> Arc<Vec<A>, S> {
    /// A new allocation that holds the items of `items`, in order.
    pub fn from_iter<I: Iterator<Item = A>>(items: I) -> (r: Self)
        ensures
            items.obeys_prophetic_iter_laws() ==> r.payload()@ == items.remaining(),
    {
        UniqueArc::from_iter(items).shareable()
    }
}

} // verus!
