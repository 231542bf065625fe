use vstd::prelude::*;
use vstd::std_specs::maybe_uninit::MaybeUninitAdditionalSpecFns;
use crate::layout::Layout;
use std::mem::MaybeUninit;

verus! {

/// Relies on `MaybeUninit::write`: stores `val` and returns a reference to it.
#[verifier::external_body]
pub(crate) fn write_slot<T>(slot: &mut MaybeUninit<T>, val: T) -> (r: &mut T)
    ensures
        *r == val,
        final(slot).as_option() == Some(*final(r)),
{
    slot.write(val)
}

/// `len` elements, none of them written.
pub fn uninit_elements<T>(len: usize) -> (r: Vec<MaybeUninit<T>>)
    requires
        Layout::array_fits::<MaybeUninit<T>>(len),
    ensures
        r@.len() == len,
        forall|i: int| 0 <= i < len ==> (#[trigger] r@[i]).as_option() is None,
{
    let mut v: Vec<MaybeUninit<T>> = Vec::new();
    let mut i: usize = 0;
    while i < len
        invariant
            i <= len,
            v@.len() == i,
            forall|j: int| 0 <= j < i ==> (#[trigger] v@[j]).as_option() is None,
        decreases len - i,
    {
        v.push(MaybeUninit::uninit());
        i = i + 1;
    }
    v
}

} // verus!
