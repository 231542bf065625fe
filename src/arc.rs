use vstd::prelude::*;
use vstd::std_specs::cmp::PartialEqSpec;
use vstd::std_specs::maybe_uninit::MaybeUninitAdditionalSpecFns;
use crate::disposal::{Disposal, Via};
use crate::layout::Layout;
use crate::uninit::{uninit_elements, write_slot};
use std::mem::MaybeUninit;
use std::ops::{Deref, DerefMut};

verus! {

/// The contents of one allocation. When the last handle to the allocation is
/// released, the allocation's disposal receives it, boxed. The reference count
/// stands beside it, in the header of the shared allocation that holds it.
pub struct ArcInner<T> {
    pub(crate) data: T,
}

impl<T> ArcInner<T> {
    /// The payload, handed back by value.
    pub fn into_data(self) -> (r: T)
        ensures
            r == self.payload(),
    {
        self.data
    }

    pub closed spec fn payload(&self) -> T {
        self.data
    }
}

/// The `backdrop` value that holds an allocation's contents, so that dropping
/// it runs the disposal `S`.
#[verifier::external_body]
#[verifier::reject_recursive_types(T)]
#[verifier::reject_recursive_types(S)]
pub(crate) struct Held<T, S: Disposal<Box<ArcInner<T>>>> {
    b: backdrop::Backdrop<Box<ArcInner<T>>, Via<S>>,
}

/// An allocation's contents, held so that dropping them runs the disposal
/// `S`, together with the payload they hold.
#[verifier::reject_recursive_types(T)]
#[verifier::reject_recursive_types(S)]
pub(crate) struct Kept<T, S: Disposal<Box<ArcInner<T>>>> {
    held: Held<T, S>,
    model: Ghost<T>,
}

impl<T, S: Disposal<Box<ArcInner<T>>>> Kept<T, S> {
    /// The payload that the held contents hold.
    pub closed spec fn payload(&self) -> T {
        self.model@
    }
}

/// Relies on `backdrop::Backdrop::new`: the value is held, and the strategy
/// `Via<S>` runs on it when the `Backdrop` is dropped.
#[verifier::external_body]
fn hold<T, S: Disposal<Box<ArcInner<T>>>>(inner: Box<ArcInner<T>>) -> Held<T, S> {
    Held { b: backdrop::Backdrop::new(inner) }
}

/// Keeps `inner` so that the disposal `S` receives it when it is dropped.
pub(crate) fn keep<T, S: Disposal<Box<ArcInner<T>>>>(inner: Box<ArcInner<T>>) -> (r: Kept<T, S>)
    ensures
        r.payload() == inner.payload(),
{
    let ghost data = inner.payload();
    Kept { held: hold(inner), model: Ghost(data) }
}

/// Relies on `Deref for backdrop::Backdrop`: a reference to the value that
/// `Backdrop::new` was given, which `keep` recorded.
#[verifier::external_body]
pub(crate) fn kept<T, S: Disposal<Box<ArcInner<T>>>>(k: &Kept<T, S>) -> (r: &ArcInner<T>)
    ensures
        r.payload() == k.payload(),
{
    &k.held.b
}

/// Relies on `DerefMut for backdrop::Backdrop`: a mutable reference to the
/// held value; what is written through it is what the `Backdrop` then holds.
#[verifier::external_body]
pub(crate) fn kept_mut<T, S: Disposal<Box<ArcInner<T>>>>(k: &mut Kept<T, S>) -> (r: &mut ArcInner<T>)
    ensures
        r.payload() == old(k).payload(),
        final(k).payload() == final(r).payload(),
{
    &mut k.held.b
}

/// Relies on `backdrop::Backdrop::into_inner`: the held value comes back and
/// the strategy does not run.
#[verifier::external_body]
pub(crate) fn unkeep<T, S: Disposal<Box<ArcInner<T>>>>(k: Kept<T, S>) -> (r: Box<ArcInner<T>>)
    ensures
        r.payload() == k.payload(),
{
    backdrop::Backdrop::into_inner(k.held.b)
}

impl<T: Clone, S: Disposal<Box<ArcInner<T>>>> Clone for Kept<T, S> {
    fn clone(&self) -> (r: Self)
        ensures
            cloned(self.payload(), r.payload()),
    {
        let data = kept(self).data.clone();
        keep(Box::new(ArcInner { data }))
    }
}

/// Relies on `std::sync::Arc::clone`: one more handle to the same allocation.
#[verifier::external_body]
fn share<X>(p: &std::sync::Arc<X>) -> (r: std::sync::Arc<X>)
    ensures
        r == *p,
{
    std::sync::Arc::clone(p)
}

/// Relies on `std::sync::Arc::strong_count`: the number of handles to the
/// allocation, `p` among them.
#[verifier::external_body]
fn strong_count<X>(p: &std::sync::Arc<X>) -> (r: usize)
    ensures
        r >= 1,
{
    std::sync::Arc::strong_count(p)
}

/// Relies on `std::sync::Arc::ptr_eq`: true when both point to the same
/// allocation, which then holds one value.
#[verifier::external_body]
fn same_allocation<X>(a: &std::sync::Arc<X>, b: &std::sync::Arc<X>) -> (r: bool)
    ensures
        r ==> *a == *b,
{
    std::sync::Arc::ptr_eq(a, b)
}

/// Relies on `std::sync::Arc::try_unwrap`: the value when `p` was the only
/// handle, else `p` itself.
#[verifier::external_body]
fn take_if_sole<X>(p: std::sync::Arc<X>) -> (r: Result<X, std::sync::Arc<X>>)
    ensures
        r matches Ok(x) ==> x == *p,
        r matches Err(q) ==> q == p,
{
    std::sync::Arc::try_unwrap(p)
}

/// Relies on `std::sync::Arc::get_mut`: mutable access when `p` is the only
/// handle; otherwise nothing, and `p` is left as it was.
#[verifier::external_body]
fn sole_mut<X>(p: &mut std::sync::Arc<X>) -> (r: Option<&mut X>)
    ensures
        r matches Some(m) ==> *m == **old(p) && **final(p) == *final(m),
        r is None ==> *final(p) == *old(p),
{
    std::sync::Arc::get_mut(p)
}

/// Relies on `std::sync::Arc::make_mut`: mutable access to `p`'s value, after
/// `p` was given an allocation of its own holding a clone when it had none.
#[verifier::external_body]
fn own_mut<X: Clone>(p: &mut std::sync::Arc<X>) -> (r: &mut X)
    ensures
        *r == **old(p) || cloned(**old(p), *r),
        **final(p) == *final(r),
{
    std::sync::Arc::make_mut(p)
}

/// A handle to a value shared by any number of threads, released through the
/// disposal `S` when its last handle goes away.
#[verifier::reject_recursive_types(T)]
#[verifier::reject_recursive_types(S)]
pub struct Arc<T, S: Disposal<Box<ArcInner<T>>>> {
    pub(crate) p: std::sync::Arc<Kept<T, S>>,
}

impl<T, S: Disposal<Box<ArcInner<T>>>> Arc<T, S> {
    /// The payload that the allocation holds.
    pub closed spec fn payload(&self) -> T {
        (*self.p).payload()
    }

    /// A handle to a new allocation that holds `data`.
    pub fn new(data: T) -> (r: Self)
        ensures
            r.payload() == data,
    {
        Arc { p: std::sync::Arc::new(keep(Box::new(ArcInner { data }))) }
    }

    /// The number of handles to this allocation.
    pub fn count(this: &Self) -> (r: usize)
        ensures
            r >= 1,
    {
        strong_count(&this.p)
    }

    /// Whether this is the only handle to its allocation.
    pub fn is_unique(&self) -> (r: bool) {
        Self::count(self) == 1
    }

    /// Whether the two handles share one allocation.
    pub fn ptr_eq(this: &Self, other: &Self) -> (r: bool)
        ensures
            r ==> this == other,
    {
        same_allocation(&this.p, &other.p)
    }

    /// The payload, by reference.
    pub fn get(&self) -> (r: &T)
        ensures
            *r == self.payload(),
    {
        &kept(&*self.p).data
    }

    /// The allocation as a unique one, when this handle is the only one;
    /// else the handle back.
    pub fn try_unique(this: Self) -> (r: Result<UniqueArc<T, S>, Self>)
        ensures
            r matches Ok(u) ==> u.payload() == this.payload(),
            r matches Err(a) ==> a == this,
    {
        match take_if_sole(this.p) {
            Ok(k) => Ok(UniqueArc { k }),
            Err(p) => Err(Arc { p }),
        }
    }

    /// The payload, when this handle is the only one; else the handle back.
    pub fn try_unwrap(this: Self) -> (r: Result<T, Self>)
        ensures
            r matches Ok(x) ==> x == this.payload(),
            r matches Err(a) ==> a == this,
    {
        match Self::try_unique(this) {
            Ok(u) => Ok(UniqueArc::into_inner(u)),
            Err(a) => Err(a),
        }
    }

    /// Mutable access to the payload when this handle is the only one.
    pub fn get_mut(this: &mut Self) -> (r: Option<&mut T>)
        ensures
            r matches Some(m) ==> *m == old(this).payload() && final(this).payload() == *final(m),
            r is None ==> *final(this) == *old(this),
    {
        match sole_mut(&mut this.p) {
            Some(k) => Some(&mut kept_mut(k).data),
            None => None,
        }
    }
}

impl<T, S: Disposal<Box<ArcInner<T>>>> Arc<T, S> {
    /// An iterator that hands out `count` more handles to this allocation.
    pub fn clone_many<'a>(this: &'a Self, count: usize) -> (r: ArcCloneIter<'a, T, S>)
        ensures
            r.source() == this,
            r.remaining() == count,
    {
        ArcCloneIter::new(this, count)
    }

    /// A view of the payload that can make new handles to its allocation.
    pub fn borrow_arc<'a>(&'a self) -> (r: ArcBorrow<'a, T, S>)
        ensures
            r.source() == self,
    {
        ArcBorrow { arc: self }
    }
}

/// Hands out a fixed number of handles to one allocation.
#[verifier::reject_recursive_types(T)]
#[verifier::reject_recursive_types(S)]
pub struct ArcCloneIter<'a, T, S: Disposal<Box<ArcInner<T>>>> {
    orig: &'a Arc<T, S>,
    arcs_left: usize,
}

impl<'a, T, S: Disposal<Box<ArcInner<T>>>> ArcCloneIter<'a, T, S> {
    /// The handle whose allocation the new handles share.
    pub closed spec fn source(&self) -> &'a Arc<T, S> {
        self.orig
    }

    /// How many handles are still to come.
    pub closed spec fn remaining(&self) -> nat {
        self.arcs_left as nat
    }

    fn new(orig: &'a Arc<T, S>, count: usize) -> (r: Self)
        ensures
            r.source() == orig,
            r.remaining() == count,
    {
        ArcCloneIter { orig, arcs_left: count }
    }

    /// The next handle, while any are left.
    pub fn next(&mut self) -> (r: Option<Arc<T, S>>)
        ensures
            final(self).source() == old(self).source(),
            old(self).remaining() == 0 ==> r is None && final(self).remaining() == 0,
            old(self).remaining() > 0 ==> r == Some(*old(self).source())
                && final(self).remaining() == old(self).remaining() - 1,
    {
        if self.arcs_left == 0 {
            return None;
        }
        self.arcs_left = self.arcs_left - 1;
        Some(self.orig.clone())
    }

    /// The exact number of handles still to come, as bounds.
    pub fn size_hint(&self) -> (r: (usize, Option<usize>))
        ensures
            r.0 == self.remaining(),
            r.1 == Some(self.remaining() as usize),
    {
        (self.arcs_left, Some(self.arcs_left))
    }

    /// All the handles still to come, in a `Vec`.
    pub fn take_all(&mut self) -> (r: Vec<Arc<T, S>>)
        ensures
            r@.len() == old(self).remaining(),
            forall|i: int| 0 <= i < r@.len() ==> #[trigger] r@[i] == *old(self).source(),
            final(self).source() == old(self).source(),
            final(self).remaining() == 0,
    {
        let mut v: Vec<Arc<T, S>> = Vec::new();
        let ghost n = self.remaining();
        while self.arcs_left > 0
            invariant
                self.source() == old(self).source(),
                v@.len() + self.remaining() == n,
                n == old(self).remaining(),
                forall|i: int| 0 <= i < v@.len() ==> #[trigger] v@[i] == *old(self).source(),
            decreases self.arcs_left,
        {
            match self.next() {
                Some(a) => v.push(a),
                None => {},
            }
        }
        v
    }
}

/// A borrowed view of a payload, from which new handles to its allocation can
/// be made.
#[verifier::reject_recursive_types(T)]
#[verifier::reject_recursive_types(S)]
pub struct ArcBorrow<'a, T, S: Disposal<Box<ArcInner<T>>>> {
    arc: &'a Arc<T, S>,
}

impl<'a, T, S: Disposal<Box<ArcInner<T>>>> ArcBorrow<'a, T, S> {
    /// The handle this view borrows from.
    pub closed spec fn source(&self) -> &'a Arc<T, S> {
        self.arc
    }

    /// A new handle to the allocation.
    pub fn clone_arc(&self) -> (r: Arc<T, S>)
        ensures
            r == *self.source(),
    {
        self.arc.clone()
    }

    /// The payload, by reference.
    pub fn get(&self) -> (r: &'a T)
        ensures
            *r == self.source().payload(),
    {
        self.arc.get()
    }
}

impl<'a, T, S: Disposal<Box<ArcInner<T>>>> Deref for ArcBorrow<'a, T, S> {
    type Target = T;

    fn deref(&self) -> (r: &T)
        ensures
            *r == self.source().payload(),
    {
        self.arc.get()
    }
}

impl<T, S: Disposal<Box<ArcInner<MaybeUninit<T>>>>> Arc<MaybeUninit<T>, S> {
    /// A new allocation whose payload is not written yet.
    pub fn new_uninit() -> (r: Self)
        ensures
            r.payload().as_option() is None,
    {
        UniqueArc::new_uninit().shareable()
    }

    /// Writes the payload when this handle is the only one, and returns a
    /// reference to it; else leaves the handle as it was.
    pub fn write(&mut self, val: T) -> (r: Option<&mut T>)
        ensures
            r matches Some(m) ==> *m == val && final(self).payload().as_option() == Some(*final(m)),
            r is None ==> *final(self) == *old(self),
    {
        match Self::get_mut(self) {
            Some(slot) => Some(write_slot(slot, val)),
            None => None,
        }
    }
}

impl<T, S: Disposal<Box<ArcInner<Vec<MaybeUninit<T>>>>>> Arc<Vec<MaybeUninit<T>>, S> {
    /// A new allocation for `len` elements, none of them written yet.
    pub fn new_uninit_slice(len: usize) -> (r: Self)
        requires
            Layout::array_fits::<MaybeUninit<T>>(len),
        ensures
            r.payload()@.len() == len,
            forall|i: int| 0 <= i < len ==> (#[trigger] r.payload()@[i]).as_option() is None,
    {
        UniqueArc::new_uninit_slice(len).shareable()
    }

    /// The elements, mutably, when this handle is the only one; else nothing,
    /// and the handle is left as it was.
    pub fn as_mut_slice(&mut self) -> (r: Option<&mut Vec<MaybeUninit<T>>>)
        ensures
            r matches Some(m) ==> *m == old(self).payload() && final(self).payload() == *final(m),
            r is None ==> *final(self) == *old(self),
    {
        Self::get_mut(self)
    }
}

impl<T, S: Disposal<Box<ArcInner<T>>>> UniqueArc<T, S> {
    /// A shared handle to this allocation, once it is done being changed.
    pub fn shareable(self) -> (r: Arc<T, S>)
        ensures
            r.payload() == self.payload(),
    {
        Arc { p: std::sync::Arc::new(self.k) }
    }
}

impl<T: Clone, S: Disposal<Box<ArcInner<T>>>> Arc<T, S> {
    /// Mutable access to the payload, which first moves to an allocation of
    /// its own, as a clone, when other handles share it.
    pub fn make_mut(this: &mut Self) -> (r: &mut T)
        ensures
            *r == old(this).payload() || cloned(old(this).payload(), *r),
            final(this).payload() == *final(r),
    {
        &mut kept_mut(own_mut(&mut this.p)).data
    }

    /// The payload: taken out when this handle is the only one, else cloned.
    pub fn unwrap_or_clone(this: Self) -> (r: T)
        ensures
            r == this.payload() || cloned(this.payload(), r),
    {
        match Self::try_unwrap(this) {
            Ok(data) => data,
            Err(a) => a.get().clone(),
        }
    }
}

impl<T, S: Disposal<Box<ArcInner<T>>>> TryFrom<Arc<T, S>> for UniqueArc<T, S> {
    type Error = Arc<T, S>;

    fn try_from(arc: Arc<T, S>) -> (r: Result<Self, Arc<T, S>>)
        ensures
            r matches Ok(u) ==> u.payload() == arc.payload(),
            r matches Err(a) ==> a == arc,
    {
        Arc::try_unique(arc)
    }
}

impl<T, S: Disposal<Box<ArcInner<T>>>> vstd::std_specs::convert::TryFromSpecImpl<Arc<T, S>> for UniqueArc<T, S> {
    /// Whether the conversion succeeds depends on the other handles, not on
    /// the value converted alone.
    open spec fn obeys_try_from_spec() -> bool {
        false
    }

    open spec fn try_from_spec(arc: Arc<T, S>) -> Result<Self, Arc<T, S>> {
        Err(arc)
    }
}

impl<T, S: Disposal<Box<ArcInner<T>>>> Clone for Arc<T, S> {
    fn clone(&self) -> (r: Self)
        ensures
            r == *self,
    {
        Arc { p: share(&self.p) }
    }
}

impl<T, S: Disposal<Box<ArcInner<T>>>> From<T> for Arc<T, S> {
    fn from(data: T) -> (r: Self)
        ensures
            r.payload() == data,
    {
        Arc::new(data)
    }
}

impl<T, S: Disposal<Box<ArcInner<T>>>> vstd::std_specs::convert::FromSpecImpl<T> for Arc<T, S> {
    /// A new allocation is made on each call, so the handle is no function of
    /// the value alone; `from` states its payload instead.
    open spec fn obeys_from_spec() -> bool {
        false
    }

    open spec fn from_spec(data: T) -> Self {
        arbitrary()
    }
}

impl<T: Default, S: Disposal<Box<ArcInner<T>>>> Default for Arc<T, S> {
    fn default() -> (r: Self)
        ensures
            call_ensures(T::default, (), r.payload()),
    {
        Arc::new(T::default())
    }
}

impl<T: PartialEq, S: Disposal<Box<ArcInner<T>>>> PartialEq for Arc<T, S> {
    /// Whether the payloads are equal.
    fn eq(&self, other: &Self) -> (r: bool) {
        self.get() == other.get()
    }
}

impl<T: PartialEq, S: Disposal<Box<ArcInner<T>>>> vstd::std_specs::cmp::PartialEqSpecImpl for Arc<T, S> {
    open spec fn obeys_eq_spec() -> bool {
        <T as PartialEqSpec>::obeys_eq_spec()
    }

    open spec fn eq_spec(&self, other: &Self) -> bool {
        self.payload().eq_spec(&other.payload())
    }
}

impl<T, S: Disposal<Box<ArcInner<T>>>> Deref for Arc<T, S> {
    type Target = T;

    fn deref(&self) -> (r: &T)
        ensures
            *r == self.payload(),
    {
        self.get()
    }
}

/// An allocation that no other handle shares, so that its payload can be
/// changed in place before it is shared.
#[verifier::reject_recursive_types(T)]
#[verifier::reject_recursive_types(S)]
pub struct UniqueArc<T, S: Disposal<Box<ArcInner<T>>>> {
    pub(crate) k: Kept<T, S>,
}

impl<T, S: Disposal<Box<ArcInner<T>>>> UniqueArc<T, S> {
    /// The payload that the allocation holds.
    pub closed spec fn payload(&self) -> T {
        self.k.payload()
    }

    /// A new allocation that holds `data`.
    pub fn new(data: T) -> (r: Self)
        ensures
            r.payload() == data,
    {
        UniqueArc { k: keep(Box::new(ArcInner { data })) }
    }

    /// The payload, taken out of the allocation; the disposal does not run.
    pub fn into_inner(this: Self) -> (r: T)
        ensures
            r == this.payload(),
    {
        unkeep(this.k).into_data()
    }

    /// The same allocation, released through the disposal `S2` instead.
    pub fn with_strategy<S2: Disposal<Box<ArcInner<T>>>>(this: Self) -> (r: UniqueArc<T, S2>)
        ensures
            r.payload() == this.payload(),
    {
        UniqueArc { k: keep(unkeep(this.k)) }
    }

    /// The payload, by reference.
    pub fn get(&self) -> (r: &T)
        ensures
            *r == self.payload(),
    {
        &kept(&self.k).data
    }

    /// The payload, by mutable reference.
    pub fn get_mut(&mut self) -> (r: &mut T)
        ensures
            *r == old(self).payload(),
            final(self).payload() == *final(r),
    {
        &mut kept_mut(&mut self.k).data
    }
}

impl<T, S: Disposal<Box<ArcInner<MaybeUninit<T>>>>> UniqueArc<MaybeUninit<T>, S> {
    /// A new allocation whose payload is not written yet.
    pub fn new_uninit() -> (r: Self)
        ensures
            r.payload().as_option() is None,
    {
        UniqueArc::new(MaybeUninit::uninit())
    }

    /// Writes the payload and returns a reference to it.
    pub fn write(&mut self, val: T) -> (r: &mut T)
        ensures
            *r == val,
            final(self).payload().as_option() == Some(*final(r)),
    {
        write_slot(self.get_mut(), val)
    }
}

impl<T, S: Disposal<Box<ArcInner<Vec<MaybeUninit<T>>>>>> UniqueArc<Vec<MaybeUninit<T>>, S> {
    /// A new allocation for `len` elements, none of them written yet.
    pub fn new_uninit_slice(len: usize) -> (r: Self)
        requires
            Layout::array_fits::<MaybeUninit<T>>(len),
        ensures
            r.payload()@.len() == len,
            forall|i: int| 0 <= i < len ==> (#[trigger] r.payload()@[i]).as_option() is None,
    {
        UniqueArc::new(uninit_elements(len))
    }
}

impl<T, S: Disposal<Box<ArcInner<T>>>> Deref for UniqueArc<T, S> {
    type Target = T;

    fn deref(&self) -> (r: &T)
        ensures
            *r == self.payload(),
    {
        self.get()
    }
}

impl<T, S: Disposal<Box<ArcInner<T>>>> DerefMut for UniqueArc<T, S> {
    fn deref_mut(&mut self) -> (r: &mut T)
        ensures
            *r == old(self).payload(),
            final(self).payload() == *final(r),
    {
        self.get_mut()
    }
}

} // verus!
