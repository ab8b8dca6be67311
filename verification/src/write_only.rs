//! Addresses, blocks and series that can be written and never read.

use crate::layout::wrapping_offset;
use crate::layout::Span;
use crate::voladdress::location_of;
use crate::voladdress::VolAddress;
use crate::volblock::VolBlock;
use crate::volblock::VolBlockIter;
use crate::volseries::VolSeries;
use crate::volseries::VolSeriesIter;
use crate::Safe;
use vstd::layout::align_of;
use vstd::layout::size_of;
use vstd::prelude::*;

verus! {

/// The address of one volatile location that holds a `T` and may be written.
///
/// The value is the raw location, which is never zero.
#[derive(Debug, Eq, Ord)]
pub struct WOVolAddress<T> {
    inner: VolAddress<T, (), Safe>,
}

impl<T> View for WOVolAddress<T> {
    type V = usize;

    /// The raw location.
    closed spec fn view(&self) -> usize {
        self.inner@
    }
}

impl<T> Clone for WOVolAddress<T> {
    #[inline]
    fn clone(&self) -> (r: Self)
        ensures
            r == *self,
    {
        *self
    }
}

impl<T> Copy for WOVolAddress<T> {

}

impl<T> PartialEq for WOVolAddress<T> {
    #[inline]
    fn eq(&self, other: &Self) -> (r: bool) {
        self.inner == other.inner
    }
}

impl<T> vstd::std_specs::cmp::PartialEqSpecImpl for WOVolAddress<T> {
    open spec fn obeys_eq_spec() -> bool {
        true
    }

    open spec fn eq_spec(&self, other: &Self) -> bool {
        self@ == other@
    }
}

impl<T> PartialOrd for WOVolAddress<T> {
    #[inline]
    fn partial_cmp(&self, other: &Self) -> (r: Option<core::cmp::Ordering>) {
        self.inner.partial_cmp(&other.inner)
    }
}

impl<T> vstd::std_specs::cmp::PartialOrdSpecImpl for WOVolAddress<T> {
    open spec fn obeys_partial_cmp_spec() -> bool {
        true
    }

    open spec fn partial_cmp_spec(&self, other: &Self) -> Option<core::cmp::Ordering> {
        if self@ < other@ {
            Some(core::cmp::Ordering::Less)
        } else if self@ > other@ {
            Some(core::cmp::Ordering::Greater)
        } else {
            Some(core::cmp::Ordering::Equal)
        }
    }
}

impl<T> WOVolAddress<T> {
    /// The validity invariant: the raw location is not zero.
    #[verifier::type_invariant]
    pub open spec fn wf(&self) -> bool {
        self@ != 0
    }

    /// The raw location `count` elements of `T` away from this one, wrapping
    /// around the address space.
    pub open spec fn spec_offset(&self, count: int) -> usize {
        wrapping_offset(self@, size_of::<T>(), count)
    }

    /// Makes the address of the writable location `address`.
    ///
    /// The caller vouches that the location holds a `T` and may be written.
    #[inline]
    #[must_use]
    pub fn new(address: usize) -> (r: Self)
        requires
            address != 0,
        ensures
            r@ == address,
    {
        Self { inner: VolAddress::new(address) }
    }

    /// The same location seen as holding a `Z`.
    #[inline]
    #[must_use]
    pub fn cast<Z>(self) -> (r: WOVolAddress<Z>)
        ensures
            r@ == self@,
    {
        let inner = self.inner.cast::<Z>();
        proof {
            use_type_invariant(&inner);
        }
        WOVolAddress { inner }
    }

    /// The address `offset` elements away, forward when `offset` is positive
    /// and backward when it is negative. The arithmetic wraps; the result
    /// must not be the zero location.
    #[inline]
    #[must_use]
    pub fn offset(self, offset: isize) -> (r: Self)
        requires
            self.spec_offset(offset as int) != 0,
        ensures
            r@ == self.spec_offset(offset as int),
    {
        Self { inner: self.inner.offset(offset) }
    }

    /// Whether the location is aligned for `T`.
    #[inline]
    #[must_use]
    pub fn is_aligned(self) -> (r: bool)
        ensures
            r == (self@ as nat % align_of::<T>() == 0),
    {
        self.inner.is_aligned()
    }

    /// The raw location.
    #[inline]
    #[must_use]
    pub fn to_usize(self) -> (r: usize)
        ensures
            r == self@,
            r != 0,
    {
        self.inner.as_usize()
    }

    /// An iterator over the addresses of `slots` elements that lie one after
    /// the other, the first of them here.
    ///
    /// The caller vouches that each of these locations holds a `T` and may
    /// be written.
    #[inline]
    #[must_use]
    pub fn iter_slots(self, slots: usize) -> (r: WOVolIter<T>)
        requires
            self@ + size_of::<T>() * slots <= usize::MAX,
        ensures
            r@ == (Span { base: self@, stride: size_of::<T>(), count: slots as nat }),
    {
        proof {
            use_type_invariant(&self);
        }
        WOVolIter { inner: VolBlockIter::from_parts(self.inner, slots) }
    }
}

/// Wraps an address that may be absent.
#[inline]
fn write_only<T>(a: Option<VolAddress<T, (), Safe>>) -> (r: Option<WOVolAddress<T>>)
    ensures
        location_of(r) == location_of(a),
{
    match a {
        Some(inner) => {
            proof {
                use_type_invariant(&inner);
            }
            Some(WOVolAddress { inner })
        },
        None => None,
    }
}

/// `COUNT` writable elements of type `T` that lie one directly after the
/// other.
///
/// The block is the span of its elements, which fits into the address space
/// with the position one past its last element.
#[derive(Debug, Eq)]
pub struct WOVolBlock<T, const COUNT: usize> {
    inner: VolBlock<T, (), Safe, COUNT>,
}

impl<T, const COUNT: usize> View for WOVolBlock<T, COUNT> {
    type V = Span;

    /// The span of the block's elements.
    open spec fn view(&self) -> Span {
        self.spec_plain()@
    }
}

impl<T, const COUNT: usize> Clone for WOVolBlock<T, COUNT> {
    #[inline]
    fn clone(&self) -> (r: Self)
        ensures
            r == *self,
    {
        *self
    }
}

impl<T, const COUNT: usize> Copy for WOVolBlock<T, COUNT> {

}

impl<T, const COUNT: usize> PartialEq for WOVolBlock<T, COUNT> {
    #[inline]
    fn eq(&self, other: &Self) -> (r: bool) {
        self.inner == other.inner
    }
}

impl<T, const COUNT: usize> vstd::std_specs::cmp::PartialEqSpecImpl for WOVolBlock<T, COUNT> {
    open spec fn obeys_eq_spec() -> bool {
        true
    }

    open spec fn eq_spec(&self, other: &Self) -> bool {
        self@.base == other@.base
    }
}

impl<T, const COUNT: usize> WOVolBlock<T, COUNT> {
    /// The block with the capabilities spelled out.
    pub closed spec fn spec_plain(&self) -> VolBlock<T, (), Safe, COUNT> {
        self.inner
    }

    /// The validity invariant: the span of the elements fits.
    #[verifier::type_invariant]
    pub open spec fn wf(&self) -> bool {
        self@.fits()
    }

    /// Makes the block that starts at the location `address`.
    ///
    /// The caller vouches that each of the `COUNT` locations holds a `T` and
    /// may be written.
    #[inline]
    #[must_use]
    pub fn new(address: usize) -> (r: Self)
        requires
            address != 0,
            address + size_of::<T>() * COUNT <= usize::MAX,
        ensures
            r@.base == address,
    {
        Self { inner: VolBlock::new(address) }
    }

    /// The number of elements.
    #[inline]
    #[must_use]
    pub fn len(self) -> (r: usize)
        ensures
            r == COUNT,
    {
        COUNT
    }

    /// An iterator over the addresses of all elements, first to last.
    #[inline]
    #[must_use]
    pub fn iter(self) -> (r: WOVolIter<T>)
        ensures
            r@ == self@,
    {
        WOVolIter { inner: self.inner.iter() }
    }

    /// The address of element `slot`, for a caller who has made sure that
    /// the block has such an element.
    #[inline]
    #[must_use]
    pub fn index_unchecked(self, slot: usize) -> (r: WOVolAddress<T>)
        requires
            slot < COUNT,
        ensures
            r@ == self@.at(slot as int),
    {
        let inner = self.inner.index_unchecked(slot);
        proof {
            use_type_invariant(&inner);
        }
        WOVolAddress { inner }
    }

    /// The address of element `slot`.
    #[inline]
    #[must_use]
    pub fn index(self, slot: usize) -> (r: WOVolAddress<T>)
        requires
            slot < COUNT,
        ensures
            r@ == self@.at(slot as int),
    {
        self.index_unchecked(slot)
    }

    /// The address of element `slot`, or nothing where the block has no such
    /// element.
    #[inline]
    #[must_use]
    pub fn get(self, slot: usize) -> (r: Option<WOVolAddress<T>>)
        ensures
            location_of(r) == self@.get(slot as int),
    {
        if slot < COUNT {
            Some(self.index_unchecked(slot))
        } else {
            None
        }
    }
}

/// `COUNT` writable elements of type `T`, each `STRIDE` bytes after the one
/// before it.
///
/// The series is the span of its elements, which fits into the address space
/// with the position one stride past its last element.
#[derive(Debug, Eq)]
pub struct WOVolSeries<T, const COUNT: usize, const STRIDE: usize> {
    inner: VolSeries<T, (), Safe, COUNT, STRIDE>,
}

impl<T, const COUNT: usize, const STRIDE: usize> View for WOVolSeries<T, COUNT, STRIDE> {
    type V = Span;

    /// The span of the series' elements.
    open spec fn view(&self) -> Span {
        self.spec_plain()@
    }
}

impl<T, const COUNT: usize, const STRIDE: usize> Clone for WOVolSeries<T, COUNT, STRIDE> {
    #[inline]
    fn clone(&self) -> (r: Self)
        ensures
            r == *self,
    {
        *self
    }
}

impl<T, const COUNT: usize, const STRIDE: usize> Copy for WOVolSeries<T, COUNT, STRIDE> {

}

impl<T, const COUNT: usize, const STRIDE: usize> PartialEq for WOVolSeries<T, COUNT, STRIDE> {
    #[inline]
    fn eq(&self, other: &Self) -> (r: bool) {
        self.inner == other.inner
    }
}

impl<T, const COUNT: usize, const STRIDE: usize> vstd::std_specs::cmp::PartialEqSpecImpl for WOVolSeries<T, COUNT, STRIDE> {
    open spec fn obeys_eq_spec() -> bool {
        true
    }

    open spec fn eq_spec(&self, other: &Self) -> bool {
        self@.base == other@.base
    }
}

impl<T, const COUNT: usize, const STRIDE: usize> WOVolSeries<T, COUNT, STRIDE> {
    /// The series with the capabilities spelled out.
    pub closed spec fn spec_plain(&self) -> VolSeries<T, (), Safe, COUNT, STRIDE> {
        self.inner
    }

    /// The validity invariant: the span of the elements fits.
    #[verifier::type_invariant]
    pub open spec fn wf(&self) -> bool {
        self@.fits()
    }

    /// Makes the series that starts at the location `address`.
    ///
    /// The caller vouches that each of the `COUNT` locations holds a `T` and
    /// may be written.
    #[inline]
    #[must_use]
    pub fn new(address: usize) -> (r: Self)
        requires
            address != 0,
            address + STRIDE * COUNT <= usize::MAX,
        ensures
            r@.base == address,
    {
        Self { inner: VolSeries::new(address) }
    }

    /// The number of elements.
    #[inline]
    #[must_use]
    pub fn len(self) -> (r: usize)
        ensures
            r == COUNT,
    {
        COUNT
    }

    /// An iterator over the addresses of all elements, first to last.
    #[inline]
    #[must_use]
    pub fn iter(self) -> (r: WOVolStridingIter<T, STRIDE>)
        ensures
            r@ == self@,
    {
        WOVolStridingIter { inner: self.inner.iter() }
    }

    /// The address of element `slot`, for a caller who has made sure that
    /// the series has such an element.
    #[inline]
    #[must_use]
    pub fn index_unchecked(self, slot: usize) -> (r: WOVolAddress<T>)
        requires
            slot < COUNT,
        ensures
            r@ == self@.at(slot as int),
    {
        let inner = self.inner.index_unchecked(slot);
        proof {
            use_type_invariant(&inner);
        }
        WOVolAddress { inner }
    }

    /// The address of element `slot`.
    #[inline]
    #[must_use]
    pub fn index(self, slot: usize) -> (r: WOVolAddress<T>)
        requires
            slot < COUNT,
        ensures
            r@ == self@.at(slot as int),
    {
        self.index_unchecked(slot)
    }

    /// The address of element `slot`, or nothing where the series has no
    /// such element.
    #[inline]
    #[must_use]
    pub fn get(self, slot: usize) -> (r: Option<WOVolAddress<T>>)
        ensures
            location_of(r) == self@.get(slot as int),
    {
        if slot < COUNT {
            Some(self.index_unchecked(slot))
        } else {
            None
        }
    }
}

/// An iterator over the addresses of writable elements that lie one after
/// the other.
///
/// It is the span of the elements it has yet to yield.
#[derive(Debug)]
pub struct WOVolIter<T> {
    inner: VolBlockIter<T, (), Safe>,
}

impl<T> View for WOVolIter<T> {
    type V = Span;

    /// The span of the elements that are left.
    closed spec fn view(&self) -> Span {
        self.inner@
    }
}

impl<T> Clone for WOVolIter<T> {
    #[inline]
    fn clone(&self) -> (r: Self)
        ensures
            r@ == self@,
    {
        Self { inner: self.inner.clone() }
    }
}

impl<T> PartialEq for WOVolIter<T> {
    #[inline]
    fn eq(&self, other: &Self) -> (r: bool) {
        self.inner.same_as(&other.inner)
    }
}

impl<T> vstd::std_specs::cmp::PartialEqSpecImpl for WOVolIter<T> {
    open spec fn obeys_eq_spec() -> bool {
        true
    }

    open spec fn eq_spec(&self, other: &Self) -> bool {
        self@ == other@
    }
}

impl<T> Eq for WOVolIter<T> {

}

impl<T> WOVolIter<T> {
    /// Yields the first element that is left.
    #[inline]
    pub fn next(&mut self) -> (r: Option<WOVolAddress<T>>)
        ensures
            location_of(r) == old(self)@.get(0),
            final(self)@ == old(self)@.after_nth(0),
    {
        write_only(self.inner.next())
    }

    /// The number of elements that are left, as the lower and the upper
    /// bound of what is still to come.
    #[inline]
    #[must_use]
    pub fn size_hint(&self) -> (r: (usize, Option<usize>))
        ensures
            r.0 == self@.count,
            r.1 == Some(r.0),
    {
        self.inner.size_hint()
    }

    /// The number of elements that are left.
    #[inline]
    #[must_use]
    pub fn count(self) -> (r: usize)
        ensures
            r == self@.count,
    {
        self.inner.count()
    }

    /// The last element that is left.
    #[inline]
    #[must_use]
    pub fn last(self) -> (r: Option<WOVolAddress<T>>)
        ensures
            location_of(r) == self@.get(self@.count - 1),
    {
        write_only(self.inner.last())
    }

    /// Skips `n` elements from the front and yields the one after them. Where
    /// no more than `n` elements are left, all of them are dropped and
    /// nothing is yielded.
    #[inline]
    pub fn nth(&mut self, n: usize) -> (r: Option<WOVolAddress<T>>)
        ensures
            location_of(r) == old(self)@.get(n as int),
            final(self)@ == old(self)@.after_nth(n as int),
    {
        write_only(self.inner.nth(n))
    }

    /// The element at the highest location, which is the last one.
    #[inline]
    #[must_use]
    pub fn max(self) -> (r: Option<WOVolAddress<T>>)
        ensures
            location_of(r) == self@.get(self@.count - 1),
    {
        self.last()
    }

    /// The element at the lowest location, which is the first one.
    #[inline]
    #[must_use]
    pub fn min(self) -> (r: Option<WOVolAddress<T>>)
        ensures
            location_of(r) == self@.get(0),
    {
        let mut rest = self;
        rest.nth(0)
    }
}

/// An iterator over the addresses of writable elements that lie `STRIDE`
/// bytes apart.
///
/// It is the span of the elements it has yet to yield.
#[derive(Debug)]
pub struct WOVolStridingIter<T, const STRIDE: usize> {
    inner: VolSeriesIter<T, (), Safe, STRIDE>,
}

impl<T, const STRIDE: usize> View for WOVolStridingIter<T, STRIDE> {
    type V = Span;

    /// The span of the elements that are left.
    closed spec fn view(&self) -> Span {
        self.inner@
    }
}

impl<T, const STRIDE: usize> Clone for WOVolStridingIter<T, STRIDE> {
    #[inline]
    fn clone(&self) -> (r: Self)
        ensures
            r@ == self@,
    {
        Self { inner: self.inner.clone() }
    }
}

impl<T, const STRIDE: usize> PartialEq for WOVolStridingIter<T, STRIDE> {
    #[inline]
    fn eq(&self, other: &Self) -> (r: bool) {
        self.inner.same_as(&other.inner)
    }
}

impl<T, const STRIDE: usize> vstd::std_specs::cmp::PartialEqSpecImpl for WOVolStridingIter<T, STRIDE> {
    open spec fn obeys_eq_spec() -> bool {
        true
    }

    open spec fn eq_spec(&self, other: &Self) -> bool {
        self@ == other@
    }
}

impl<T, const STRIDE: usize> Eq for WOVolStridingIter<T, STRIDE> {

}

impl<T, const STRIDE: usize> WOVolStridingIter<T, STRIDE> {
    /// Yields the first element that is left.
    #[inline]
    pub fn next(&mut self) -> (r: Option<WOVolAddress<T>>)
        ensures
            location_of(r) == old(self)@.get(0),
            final(self)@ == old(self)@.after_nth(0),
    {
        write_only(self.inner.next())
    }

    /// The number of elements that are left, as the lower and the upper
    /// bound of what is still to come.
    #[inline]
    #[must_use]
    pub fn size_hint(&self) -> (r: (usize, Option<usize>))
        ensures
            r.0 == self@.count,
            r.1 == Some(r.0),
    {
        self.inner.size_hint()
    }

    /// The number of elements that are left.
    #[inline]
    #[must_use]
    pub fn count(self) -> (r: usize)
        ensures
            r == self@.count,
    {
        self.inner.count()
    }

    /// The last element that is left.
    #[inline]
    #[must_use]
    pub fn last(self) -> (r: Option<WOVolAddress<T>>)
        ensures
            location_of(r) == self@.get(self@.count - 1),
    {
        write_only(self.inner.last())
    }

    /// Skips `n` elements from the front and yields the one after them. Where
    /// no more than `n` elements are left, all of them are dropped and
    /// nothing is yielded.
    #[inline]
    pub fn nth(&mut self, n: usize) -> (r: Option<WOVolAddress<T>>)
        ensures
            location_of(r) == old(self)@.get(n as int),
            final(self)@ == old(self)@.after_nth(n as int),
    {
        write_only(self.inner.nth(n))
    }

    /// The element at the highest location, which is the last one.
    #[inline]
    #[must_use]
    pub fn max(self) -> (r: Option<WOVolAddress<T>>)
        ensures
            location_of(r) == self@.get(self@.count - 1),
    {
        self.last()
    }

    /// The element at the lowest location, which is the first one.
    #[inline]
    #[must_use]
    pub fn min(self) -> (r: Option<WOVolAddress<T>>)
        ensures
            location_of(r) == self@.get(0),
    {
        let mut rest = self;
        rest.nth(0)
    }
}

} // verus!
