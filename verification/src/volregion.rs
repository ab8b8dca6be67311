//! A run of elements that lie one after the other, whose number is known only
//! at run time.

use crate::layout::Span;
use crate::range::Bound;
use crate::voladdress::location_of;
use crate::voladdress::VolAddress;
use crate::volblock::VolBlock;
use crate::volblock::VolBlockIter;
use vstd::layout::size_of;
use vstd::prelude::*;

verus! {

/// Elements of type `T` that lie one directly after the other, as a block
/// does, with their number carried as a value.
///
/// The region is the span of its elements, which fits into the address space
/// with the position one past its last element.
#[derive(Debug, Eq, Ord, Hash)]
pub struct VolRegion<T, R, W> {
    addr: VolAddress<T, R, W>,
    len: usize,
}

impl<T, R, W> View for VolRegion<T, R, W> {
    type V = Span;

    /// The span of the region's elements.
    open spec fn view(&self) -> Span {
        Span { base: self.spec_base(), stride: size_of::<T>(), count: self.spec_len() }
    }
}

impl<T, R, W> Clone for VolRegion<T, R, W> {
    #[inline]
    fn clone(&self) -> (r: Self)
        ensures
            r == *self,
    {
        *self
    }
}

impl<T, R, W> Copy for VolRegion<T, R, W> {

}

impl<T, R, W> PartialEq for VolRegion<T, R, W> {
    #[inline]
    fn eq(&self, other: &Self) -> (r: bool) {
        self.addr == other.addr && self.len == other.len
    }
}

impl<T, R, W> vstd::std_specs::cmp::PartialEqSpecImpl for VolRegion<T, R, W> {
    open spec fn obeys_eq_spec() -> bool {
        true
    }

    open spec fn eq_spec(&self, other: &Self) -> bool {
        self@ == other@
    }
}

impl<T, R, W> PartialOrd for VolRegion<T, R, W> {
    #[inline]
    fn partial_cmp(&self, other: &Self) -> (r: Option<core::cmp::Ordering>) {
        if self.addr < other.addr {
            Some(core::cmp::Ordering::Less)
        } else if self.addr > other.addr {
            Some(core::cmp::Ordering::Greater)
        } else if self.len < other.len {
            Some(core::cmp::Ordering::Less)
        } else if self.len > other.len {
            Some(core::cmp::Ordering::Greater)
        } else {
            Some(core::cmp::Ordering::Equal)
        }
    }
}

impl<T, R, W> vstd::std_specs::cmp::PartialOrdSpecImpl for VolRegion<T, R, W> {
    open spec fn obeys_partial_cmp_spec() -> bool {
        true
    }

    /// Regions are ordered by where they start, and those that start at the
    /// same location by their length.
    open spec fn partial_cmp_spec(&self, other: &Self) -> Option<core::cmp::Ordering> {
        if self@.base < other@.base {
            Some(core::cmp::Ordering::Less)
        } else if self@.base > other@.base {
            Some(core::cmp::Ordering::Greater)
        } else if self@.count < other@.count {
            Some(core::cmp::Ordering::Less)
        } else if self@.count > other@.count {
            Some(core::cmp::Ordering::Greater)
        } else {
            Some(core::cmp::Ordering::Equal)
        }
    }
}

impl<T, R, W, const C: usize> From<VolBlock<T, R, W, C>> for VolRegion<T, R, W> {
    #[inline]
    fn from(block: VolBlock<T, R, W, C>) -> (r: Self)
        ensures
            r@ == block@,
    {
        proof {
            use_type_invariant(&block);
        }
        Self { addr: block.base(), len: C }
    }
}

impl<T, R, W, const C: usize> vstd::std_specs::convert::FromSpecImpl<VolBlock<T, R, W, C>> for VolRegion<T, R, W> {
    open spec fn obeys_from_spec() -> bool {
        true
    }

    /// The region of the block's elements.
    closed spec fn from_spec(block: VolBlock<T, R, W, C>) -> Self {
        Self { addr: block.spec_base(), len: C }
    }
}

impl<T, R, W> VolRegion<T, R, W> {
    /// The raw location of the first element.
    pub closed spec fn spec_base(&self) -> usize {
        self.addr@
    }

    /// The number of elements.
    pub closed spec fn spec_len(&self) -> nat {
        self.len as nat
    }

    /// The validity invariant: the span of the elements fits.
    #[verifier::type_invariant]
    pub open spec fn wf(&self) -> bool {
        self@.fits()
    }

    /// Makes the region of `len` elements whose first is at `addr`.
    ///
    /// The caller vouches that each of the `len` locations is what `T`, `R`
    /// and `W` claim.
    #[inline]
    #[must_use]
    pub fn from_raw_parts(addr: VolAddress<T, R, W>, len: usize) -> (r: Self)
        requires
            addr@ + size_of::<T>() * len <= usize::MAX,
        ensures
            r@ == (Span { base: addr@, stride: size_of::<T>(), count: len as nat }),
    {
        proof {
            use_type_invariant(&addr);
        }
        Self { addr, len }
    }

    /// The number of elements.
    #[inline]
    #[must_use]
    pub fn len(self) -> (r: usize)
        ensures
            r == self@.count,
    {
        self.len
    }

    /// The raw location of the first element.
    #[inline]
    #[must_use]
    pub fn as_usize(self) -> (r: usize)
        ensures
            r == self@.base,
            r != 0,
    {
        self.addr.as_usize()
    }

    /// The address of element `i`.
    #[inline]
    #[must_use]
    pub fn index(self, i: usize) -> (r: VolAddress<T, R, W>)
        requires
            i < self@.count,
        ensures
            r@ == self@.at(i as int),
    {
        self.index_unchecked(i)
    }

    /// The address of element `i`, for a caller who has made sure that the
    /// region has such an element.
    #[inline]
    #[must_use]
    pub fn index_unchecked(self, i: usize) -> (r: VolAddress<T, R, W>)
        requires
            i < self@.count,
        ensures
            r@ == self@.at(i as int),
    {
        proof {
            use_type_invariant(&self);
            self@.lemma_at(i as int);
        }
        self.addr.add(i)
    }

    /// The address of element `i`, or nothing where the region has no such
    /// element.
    #[inline]
    #[must_use]
    pub fn get(self, i: usize) -> (r: Option<VolAddress<T, R, W>>)
        ensures
            location_of(r) == self@.get(i as int),
    {
        if i < self.len {
            Some(self.index(i))
        } else {
            None
        }
    }

    /// The region of the elements in the range from `start` to `end`. An
    /// empty range gives an empty region.
    #[inline]
    #[must_use]
    pub fn sub_slice(self, start: Bound, end: Bound) -> (r: Self)
        requires
            start.spec_start() <= self@.count,
            end.spec_end(self@.count as int) <= self@.count,
        ensures
            r@ == self@.slice(start.spec_start(), end.spec_end(self@.count as int)),
    {
        let start_inclusive = start.start();
        let end_exclusive = end.end(self.len);
        let len = end_exclusive.saturating_sub(start_inclusive);
        proof {
            use_type_invariant(&self);
            self@.lemma_at(start_inclusive as int);
            self@.lemma_slice_fits(start_inclusive as int, end_exclusive as int);
        }
        Self { addr: self.addr.add(start_inclusive), len }
    }

    /// The same elements as a block of exactly as many.
    #[inline]
    #[must_use]
    pub fn as_block<const C: usize>(self) -> (r: VolBlock<T, R, W, C>)
        requires
            self@.count == C,
        ensures
            r@ == self@,
    {
        proof {
            use_type_invariant(&self);
        }
        VolBlock::from_base(self.addr)
    }

    /// An iterator over the addresses of all elements, first to last.
    #[inline]
    #[must_use]
    pub fn iter(self) -> (r: VolBlockIter<T, R, W>)
        ensures
            r@ == self@,
    {
        proof {
            use_type_invariant(&self);
        }
        VolBlockIter::from_parts(self.addr, self.len)
    }

    /// An iterator over the addresses of the elements in the range from
    /// `start` to `end`: that of `sub_slice` on the same range.
    #[inline]
    #[must_use]
    pub fn iter_range(self, start: Bound, end: Bound) -> (r: VolBlockIter<T, R, W>)
        requires
            start.spec_start() <= self@.count,
            end.spec_end(self@.count as int) <= self@.count,
        ensures
            r@ == self@.slice(start.spec_start(), end.spec_end(self@.count as int)),
    {
        self.sub_slice(start, end).iter()
    }

    /// For each index the region has, `get` gives the address that `index`
    /// gives; for every other index it gives nothing.
    pub proof fn lemma_get_agrees_with_index(self, i: usize)
        ensures
            i < self@.count ==> self@.get(i as int) == Some(self@.at(i as int)),
            i >= self@.count ==> self@.get(i as int) is None,
    {
    }

    /// The sub-slice from index `a` up to, not including, index `b` has
    /// `b - a` elements and starts at element `a`, for every `a <= b` that
    /// is no greater than the length of the region; `a` may be that length.
    pub proof fn lemma_sub_slice_len(self, a: usize, b: usize)
        requires
            self.wf(),
            a <= b <= self@.count,
        ensures
            Bound::Included(a).spec_start() <= self@.count,
            Bound::Excluded(b).spec_end(self@.count as int) <= self@.count,
            self@.slice(
                Bound::Included(a).spec_start(),
                Bound::Excluded(b).spec_end(self@.count as int),
            ).count == b - a,
            self@.slice(
                Bound::Included(a).spec_start(),
                Bound::Excluded(b).spec_end(self@.count as int),
            ) == (Span { base: self@.at(a as int), stride: size_of::<T>(), count: (b - a) as nat }),
            self@.at(a as int) == self@.base + a * size_of::<T>(),
    {
        self@.lemma_at(a as int);
        assert(size_of::<T>() * a == a * size_of::<T>()) by (nonlinear_arith);
    }
}

} // verus!
