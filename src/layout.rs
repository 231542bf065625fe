use vstd::prelude::*;
use vstd::arithmetic::div_mod::{lemma_fundamental_div_mod, lemma_mod_multiples_basic};
use vstd::layout::{align_of, layout_for_type_is_valid, size_of, valid_layout};

verus! {

/// `x` rounded up to the next multiple of `a`.
pub open spec fn round_up(x: int, a: int) -> int {
    if x % a == 0 {
        x
    } else {
        x - x % a + a
    }
}

/// The largest size that a layout aligned to `a` may have: the largest
/// multiple of `a` that `isize` holds.
pub open spec fn size_limit(a: int) -> int {
    isize::MAX as int - isize::MAX as int % a
}

pub open spec fn spec_max(a: int, b: int) -> int {
    if a >= b {
        a
    } else {
        b
    }
}

/// A multiple of `a` that lies at or above `x` lies at or above `x` rounded up.
proof fn lemma_round_up(x: int, a: int, m: int)
    requires
        a > 0,
        0 <= x <= m,
        m % a == 0,
    ensures
        x <= round_up(x, a) <= m,
        round_up(x, a) < x + a,
        round_up(x, a) % a == 0,
{
    lemma_fundamental_div_mod(x, a);
    lemma_fundamental_div_mod(m, a);
    let q = x / a;
    let mq = m / a;
    if x % a != 0 {
        assert(a * q < a * mq) by (nonlinear_arith)
            requires
                x == a * q + x % a,
                m == a * mq,
                0 < x % a < a,
                x <= m,
                m % a == 0,
        ;
        assert(q < mq) by (nonlinear_arith)
            requires
                a * q < a * mq,
                a > 0,
        ;
        assert(a * (q + 1) <= a * mq) by (nonlinear_arith)
            requires
                q + 1 <= mq,
                a > 0,
        ;
        assert(round_up(x, a) == (q + 1) * a) by (nonlinear_arith)
            requires
                x == a * q + x % a,
                round_up(x, a) == x - x % a + a,
        ;
        lemma_mod_multiples_basic(q + 1, a);
    }
}

/// The size limit of an alignment is a multiple of it, and no more than `isize::MAX`.
proof fn lemma_size_limit(a: int)
    requires
        a > 0,
    ensures
        size_limit(a) % a == 0,
        0 <= size_limit(a) <= isize::MAX as int,
{
    lemma_fundamental_div_mod(isize::MAX as int, a);
    let q = isize::MAX as int / a;
    assert(size_limit(a) == q * a) by (nonlinear_arith)
        requires
            isize::MAX as int == a * q + isize::MAX as int % a,
            size_limit(a) == isize::MAX as int - isize::MAX as int % a,
    ;
    lemma_mod_multiples_basic(q, a);
}

/// The size and alignment of a block of memory: the payload of an allocation,
/// or the allocation as a whole.
pub struct Layout {
    size: usize,
    align: usize,
}

impl Layout {
    #[verifier::type_invariant]
    spec fn valid(self) -> bool {
        &&& valid_layout(self.size, self.align)
        &&& self.align > 0
    }

    pub closed spec fn size_spec(&self) -> int {
        self.size as int
    }

    pub closed spec fn align_spec(&self) -> int {
        self.align as int
    }

    /// The layout of a value of type `V`.
    pub fn of<V>() -> (r: Layout)
        ensures
            r.size_spec() == size_of::<V>(),
            r.align_spec() == align_of::<V>(),
    {
        layout_for_type_is_valid::<V>();
        Layout { size: core::mem::size_of::<V>(), align: core::mem::align_of::<V>() }
    }

    pub fn size(&self) -> (r: usize)
        ensures
            r == self.size_spec(),
    {
        self.size
    }

    pub fn align(&self) -> (r: usize)
        ensures
            r == self.align_spec(),
            r > 0,
    {
        proof {
            use_type_invariant(self);
        }
        self.align
    }

    /// This layout, its size rounded up to a multiple of its alignment.
    pub fn pad_to_align(&self) -> (r: Layout)
        ensures
            r.size_spec() == round_up(self.size_spec(), self.align_spec()),
            r.align_spec() == self.align_spec(),
            r.size_spec() % r.align_spec() == 0,
    {
        proof {
            use_type_invariant(self);
            lemma_size_limit(self.align as int);
            lemma_round_up(self.size as int, self.align as int, size_limit(self.align as int));
        }
        let rem = self.size % self.align;
        let size = if rem == 0 {
            self.size
        } else {
            let gap = self.align - rem;
            assert(self.size + gap <= size_limit(self.align as int));
            self.size + gap
        };
        Layout { size, align: self.align }
    }

    /// The layout of this one followed by `next`, and the offset at which
    /// `next` starts: the first multiple of `next`'s alignment at or past this
    /// one's end. None when the whole would be larger than a layout may be.
    pub fn extend(&self, next: &Layout) -> (r: Option<(Layout, usize)>)
        ensures
            ({
                let off = round_up(self.size_spec(), next.align_spec());
                let align = spec_max(self.align_spec(), next.align_spec());
                &&& r is Some <==> off + next.size_spec() <= size_limit(align)
                &&& r matches Some((l, o)) ==> o == off && l.size_spec() == off + next.size_spec()
                    && l.align_spec() == align
            }),
    {
        proof {
            use_type_invariant(self);
            use_type_invariant(next);
        }
        let align = if self.align >= next.align {
            self.align
        } else {
            next.align
        };
        proof {
            lemma_size_limit(align as int);
        }
        let rem = self.size % next.align;
        let off = if rem == 0 {
            self.size
        } else {
            let gap = next.align - rem;
            if gap > (isize::MAX as usize) - self.size {
                return None;
            }
            self.size + gap
        };
        if next.size > (isize::MAX as usize) - off {
            return None;
        }
        let total = off + next.size;
        let limit = (isize::MAX as usize) - (isize::MAX as usize) % align;
        if total > limit {
            return None;
        }
        Some((Layout { size: total, align }, off))
    }

    /// Whether `n` values of type `V` in a row have a layout: whether they fit
    /// in a single allocation.
    pub open spec fn array_fits<V>(n: usize) -> bool {
        size_of::<V>() * n <= size_limit(align_of::<V>() as int)
    }

    /// The layout of `n` values of type `V` in a row.
    pub fn array<V>(n: usize) -> (r: Option<Layout>)
        ensures
            r is Some <==> Self::array_fits::<V>(n),
            r matches Some(l) ==> l.size_spec() == size_of::<V>() * n && l.align_spec()
                == align_of::<V>(),
    {
        let elem = Layout::of::<V>();
        proof {
            use_type_invariant(&elem);
            lemma_size_limit(elem.align as int);
        }
        let align = elem.align;
        let limit = (isize::MAX as usize) - (isize::MAX as usize) % align;
        match elem.size.checked_mul(n) {
            Some(size) => if size <= limit {
                Some(Layout { size, align })
            } else {
                None
            },
            None => None,
        }
    }
}

/// The layout of an allocation whose header is the reference count and whose
/// payload has the layout `value`, padded to its alignment, with the offset
/// of the payload from the start of the allocation.
pub fn arc_inner_layout(value: &Layout) -> (r: Option<(Layout, usize)>)
    ensures
        ({
            let count = size_of::<core::sync::atomic::AtomicUsize>() as int;
            let off = round_up(count, value.align_spec());
            let align = spec_max(align_of::<core::sync::atomic::AtomicUsize>() as int, value.align_spec());
            &&& r is Some <==> off + value.size_spec() <= size_limit(align)
            &&& r matches Some((l, o)) ==> o == off && l.align_spec() == align
                && l.size_spec() == round_up(off + value.size_spec(), align)
                && l.size_spec() % align == 0
        }),
{
    let header = Layout::of::<core::sync::atomic::AtomicUsize>();
    match header.extend(value) {
        Some((whole, off)) => Some((whole.pad_to_align(), off)),
        None => None,
    }
}

/// The layout of a fixed header of type `H` followed by `len` elements of
/// type `E`, padded to its alignment: the payload of one allocation that
/// holds both.
pub fn header_and_slice_layout<H, E>(len: usize) -> (r: Option<Layout>)
    ensures
        ({
            let elems = size_of::<E>() * len;
            let off = round_up(size_of::<H>() as int, align_of::<E>() as int);
            let align = spec_max(align_of::<H>() as int, align_of::<E>() as int);
            &&& r is Some <==> elems <= size_limit(align_of::<E>() as int) && off + elems
                <= size_limit(align)
            &&& r matches Some(l) ==> l.align_spec() == align && l.size_spec() == round_up(
                off + elems,
                align,
            )
        }),
{
    let header = Layout::of::<H>();
    match Layout::array::<E>(len) {
        Some(elems) => match header.extend(&elems) {
            Some((whole, _)) => Some(whole.pad_to_align()),
            None => None,
        },
        None => None,
    }
}

} // verus!
