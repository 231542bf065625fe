use vstd::prelude::*;
use crate::arc::{Arc, ArcBorrow, ArcInner};
use crate::disposal::Disposal;
use std::ops::Deref;

verus! {

/// A handle that is addressed by its payload rather than by the allocation
/// as a whole. It owns one reference, as an `Arc` does; converting between
/// the two neither adds nor removes one.
#[verifier::reject_recursive_types(T)]
#[verifier::reject_recursive_types(S)]
pub struct OffsetArc<T, S: Disposal<Box<ArcInner<T>>>> {
    arc: Arc<T, S>,
}

impl<T, S: Disposal<Box<ArcInner<T>>>> OffsetArc<T, S> {
    /// The handle this one stands for.
    pub closed spec fn handle(&self) -> Arc<T, S> {
        self.arc
    }

    /// A new `Arc` to the same allocation.
    pub fn clone_arc(&self) -> (r: Arc<T, S>)
        ensures
            r == self.handle(),
    {
        self.arc.clone()
    }

    /// A borrowed view of the payload.
    pub fn borrow_arc(&self) -> (r: ArcBorrow<'_, T, S>)
        ensures
            r.source() == &self.handle(),
    {
        self.arc.borrow_arc()
    }

    /// The payload, by reference.
    pub fn get(&self) -> (r: &T)
        ensures
            *r == self.handle().payload(),
    {
        self.arc.get()
    }

    /// Runs `f` on the `Arc` this handle stands for, without a new reference.
    pub fn with_arc<U, F: FnOnce(&Arc<T, S>) -> U>(&self, f: F) -> (r: U)
        requires
            f.requires((&self.handle(),)),
        ensures
            f.ensures((&self.handle(),), r),
    {
        f(&self.arc)
    }
}

impl<T: Clone, S: Disposal<Box<ArcInner<T>>>> OffsetArc<T, S> {
    /// Mutable access to the payload, which first moves to an allocation of
    /// its own, as a clone, when other handles share it.
    pub fn make_mut(&mut self) -> (r: &mut T)
        ensures
            *r == old(self).handle().payload() || cloned(old(self).handle().payload(), *r),
            final(self).handle().payload() == *final(r),
    {
        Arc::make_mut(&mut self.arc)
    }
}

impl<T, S: Disposal<Box<ArcInner<T>>>> Arc<T, S> {
    /// The same reference, addressed by its payload.
    pub fn into_raw_offset(a: Self) -> (r: OffsetArc<T, S>)
        ensures
            r.handle() == a,
    {
        OffsetArc { arc: a }
    }

    /// The same reference, addressed by its allocation.
    pub fn from_raw_offset(a: OffsetArc<T, S>) -> (r: Self)
        ensures
            r == a.handle(),
    {
        a.arc
    }
}

impl<T, S: Disposal<Box<ArcInner<T>>>> Clone for OffsetArc<T, S> {
    fn clone(&self) -> (r: Self)
        ensures
            r.handle() == self.handle(),
    {
        OffsetArc { arc: self.arc.clone() }
    }
}

impl<T, S: Disposal<Box<ArcInner<T>>>> Deref for OffsetArc<T, S> {
    type Target = T;

    fn deref(&self) -> (r: &T)
        ensures
            *r == self.handle().payload(),
    {
        self.arc.get()
    }
}

} // verus!
