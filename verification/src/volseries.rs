//! A fixed number of elements that lie a fixed number of bytes apart, and the
//! iterator over their addresses.

use crate::layout::Span;
use crate::range::Bound;
use crate::voladdress::location_of;
use crate::voladdress::VolAddress;
use vstd::prelude::*;

verus! {

/// `C` elements of type `T`, each `S` bytes after the one before it.
///
/// The stride is free of the size of `T`: elements may lie apart or overlap.
/// The series is the span of its elements, which fits into the address space
/// with the position one stride past its last element.
#[derive(Debug, Eq, Ord, Hash)]
pub struct VolSeries<T, R, W, const C: usize, const S: usize> {
    base: VolAddress<T, R, W>,
}

impl<T, R, W, const C: usize, const S: usize> View for VolSeries<T, R, W, C, S> {
    type V = Span;

    /// The span of the series' elements.
    open spec fn view(&self) -> Span {
        Span { base: self.spec_base()@, stride: S as nat, count: C as nat }
    }
}

impl<T, R, W, const C: usize, const S: usize> Clone for VolSeries<T, R, W, C, S> {
    #[inline]
    fn clone(&self) -> (r: Self)
        ensures
            r == *self,
    {
        *self
    }
}

impl<T, R, W, const C: usize, const S: usize> Copy for VolSeries<T, R, W, C, S> {

}

impl<T, R, W, const C: usize, const S: usize> PartialEq for VolSeries<T, R, W, C, S> {
    #[inline]
    fn eq(&self, other: &Self) -> (r: bool) {
        self.base == other.base
    }
}

impl<T, R, W, const C: usize, const S: usize> vstd::std_specs::cmp::PartialEqSpecImpl for VolSeries<T, R, W, C, S> {
    open spec fn obeys_eq_spec() -> bool {
        true
    }

    open spec fn eq_spec(&self, other: &Self) -> bool {
        self@.base == other@.base
    }
}

impl<T, R, W, const C: usize, const S: usize> PartialOrd for VolSeries<T, R, W, C, S> {
    #[inline]
    fn partial_cmp(&self, other: &Self) -> (r: Option<core::cmp::Ordering>) {
        self.base.partial_cmp(&other.base)
    }
}

impl<T, R, W, const C: usize, const S: usize> vstd::std_specs::cmp::PartialOrdSpecImpl for VolSeries<T, R, W, C, S> {
    open spec fn obeys_partial_cmp_spec() -> bool {
        true
    }

    open spec fn partial_cmp_spec(&self, other: &Self) -> Option<core::cmp::Ordering> {
        if self@.base < other@.base {
            Some(core::cmp::Ordering::Less)
        } else if self@.base > other@.base {
            Some(core::cmp::Ordering::Greater)
        } else {
            Some(core::cmp::Ordering::Equal)
        }
    }
}

impl<T, R, W, const C: usize, const S: usize> VolSeries<T, R, W, C, S> {
    /// The address of the first element.
    pub closed spec fn spec_base(&self) -> VolAddress<T, R, W> {
        self.base
    }

    /// The validity invariant: the span of the elements fits.
    #[verifier::type_invariant]
    pub open spec fn wf(&self) -> bool {
        self@.fits()
    }

    /// Makes the series that starts at the location `base`.
    ///
    /// The caller vouches that each of the `C` locations is what `T`, `R` and
    /// `W` claim.
    #[inline]
    #[must_use]
    pub fn new(base: usize) -> (r: Self)
        requires
            base != 0,
            base + S * C <= usize::MAX,
        ensures
            r@.base == base,
    {
        Self { base: VolAddress::new(base) }
    }

    /// The number of elements.
    #[inline]
    #[must_use]
    pub fn len(self) -> (r: usize)
        ensures
            r == C,
    {
        C
    }

    /// The number of bytes from one element to the next.
    #[inline]
    #[must_use]
    pub fn stride(self) -> (r: usize)
        ensures
            r == S,
    {
        S
    }

    /// The raw location of the first element.
    #[inline]
    #[must_use]
    pub fn as_usize(self) -> (r: usize)
        ensures
            r == self@.base,
            r != 0,
    {
        self.base.as_usize()
    }

    /// The address of element `i`.
    #[inline]
    #[must_use]
    pub fn index(self, i: usize) -> (r: VolAddress<T, R, W>)
        requires
            i < C,
        ensures
            r@ == self@.at(i as int),
    {
        self.index_unchecked(i)
    }

    /// The address of element `i`, for a caller who has made sure that the
    /// series has such an element.
    #[inline]
    #[must_use]
    pub fn index_unchecked(self, i: usize) -> (r: VolAddress<T, R, W>)
        requires
            i < C,
        ensures
            r@ == self@.at(i as int),
    {
        proof {
            use_type_invariant(&self);
            self@.lemma_at(i as int);
        }
        self.base.add_strided(S, i)
    }

    /// The address of element `i`, or nothing where the series has no such
    /// element.
    #[inline]
    #[must_use]
    pub fn get(self, i: usize) -> (r: Option<VolAddress<T, R, W>>)
        ensures
            location_of(r) == self@.get(i as int),
    {
        if i < C {
            Some(self.index(i))
        } else {
            None
        }
    }

    /// An iterator over the addresses of all elements, first to last.
    #[inline]
    #[must_use]
    pub fn iter(self) -> (r: VolSeriesIter<T, R, W, S>)
        ensures
            r@ == self@,
    {
        proof {
            use_type_invariant(&self);
        }
        VolSeriesIter::from_parts(self.base, C)
    }

    /// An iterator over the addresses of the elements in the range from
    /// `start` to `end`. An empty range gives an iterator that yields
    /// nothing.
    #[inline]
    #[must_use]
    pub fn iter_range(self, start: Bound, end: Bound) -> (r: VolSeriesIter<T, R, W, S>)
        requires
            start.spec_start() <= C,
            end.spec_end(C as int) <= C,
        ensures
            r@ == self@.slice(start.spec_start(), end.spec_end(C as int)),
    {
        let start_inclusive = start.start();
        let end_exclusive = end.end(C);
        let count = end_exclusive.saturating_sub(start_inclusive);
        proof {
            use_type_invariant(&self);
            self@.lemma_at(start_inclusive as int);
            self@.lemma_slice_fits(start_inclusive as int, end_exclusive as int);
        }
        VolSeriesIter::from_parts(self.base.add_strided(S, start_inclusive), count)
    }

    /// For each index the series has, `get` gives the address that `index`
    /// gives; for every other index it gives nothing.
    pub proof fn lemma_get_agrees_with_index(self, i: usize)
        ensures
            i < C ==> self@.get(i as int) == Some(self@.at(i as int)),
            i >= C ==> self@.get(i as int) is None,
    {
    }

    /// An iterator fresh from `iter` has all `C` elements left. Taking the
    /// first element again and again yields elements `0` to `C - 1` in
    /// turn, and from then on nothing, however often one asks. Where
    /// the stride is not zero, each element lies at a higher location
    /// than the one before it.
    pub proof fn lemma_iter_yields_each_element(self, k: nat)
        requires
            self.wf(),
        ensures
            self@.count == C,
            self@.after_nexts(k).get(0) == self@.get(k as int),
            k < C ==> self@.get(k as int) == Some(self@.at(k as int)),
            k >= C ==> self@.after_nexts(k).get(0) is None,
            0 < k < C && S > 0 ==> self@.at(k - 1) < self@.at(k as int),
    {
        self@.lemma_successive_nexts(k);
        if 0 < k < C && S > 0 {
            self@.lemma_locations_increase(k - 1, k as int);
        }
    }
}

/// An iterator over the addresses of elements that lie `S` bytes apart.
///
/// It is the span of the elements it has yet to yield, and gives them out
/// from either end.
#[derive(Debug)]
pub struct VolSeriesIter<T, R, W, const S: usize> {
    base: VolAddress<T, R, W>,
    count: usize,
}

impl<T, R, W, const S: usize> View for VolSeriesIter<T, R, W, S> {
    type V = Span;

    /// The span of the elements that are left.
    open spec fn view(&self) -> Span {
        Span { base: self.spec_base(), stride: S as nat, count: self.spec_count() }
    }
}

impl<T, R, W, const S: usize> Clone for VolSeriesIter<T, R, W, S> {
    #[inline]
    fn clone(&self) -> (r: Self)
        ensures
            r@ == self@,
    {
        proof {
            use_type_invariant(self);
        }
        Self { base: self.base, count: self.count }
    }
}

impl<T, R, W, const S: usize> VolSeriesIter<T, R, W, S> {
    /// The raw location of the first element that is left.
    pub closed spec fn spec_base(&self) -> usize {
        self.base@
    }

    /// The number of elements that are left.
    pub closed spec fn spec_count(&self) -> nat {
        self.count as nat
    }

    /// The validity invariant: the span of what is left fits.
    #[verifier::type_invariant]
    pub open spec fn wf(&self) -> bool {
        self@.fits()
    }

    /// Makes the iterator over `count` elements, the first of them at `base`.
    #[inline]
    pub(crate) fn from_parts(base: VolAddress<T, R, W>, count: usize) -> (r: Self)
        requires
            (Span { base: base@, stride: S as nat, count: count as nat }).fits(),
        ensures
            r@ == (Span { base: base@, stride: S as nat, count: count as nat }),
    {
        Self { base, count }
    }

    /// Whether two iterators have the same elements left.
    #[inline]
    pub(crate) fn same_as(&self, other: &Self) -> (r: bool)
        ensures
            r == (self@ == other@),
    {
        self.base == other.base && self.count == other.count
    }

    /// Skips `n` elements from the front and yields the one after them. Where
    /// no more than `n` elements are left, all of them are dropped and
    /// nothing is yielded.
    #[inline]
    pub fn nth(&mut self, n: usize) -> (r: Option<VolAddress<T, R, W>>)
        ensures
            location_of(r) == old(self)@.get(n as int),
            final(self)@ == old(self)@.after_nth(n as int),
    {
        proof {
            use_type_invariant(&*self);
            self@.lemma_parts_fit(0);
        }
        if n < self.count {
            proof {
                self@.lemma_at(n as int);
                self@.lemma_at(n + 1);
                self@.lemma_parts_fit(n + 1);
            }
            let out = self.base.add_strided(S, n);
            *self = Self { base: self.base.add_strided(S, n + 1), count: self.count - (n + 1) };
            Some(out)
        } else {
            *self = Self { base: self.base, count: 0 };
            None
        }
    }

    /// Yields the first element that is left.
    #[inline]
    pub fn next(&mut self) -> (r: Option<VolAddress<T, R, W>>)
        ensures
            location_of(r) == old(self)@.get(0),
            final(self)@ == old(self)@.after_nth(0),
    {
        self.nth(0)
    }

    /// The last element that is left.
    #[inline]
    #[must_use]
    pub fn last(self) -> (r: Option<VolAddress<T, R, W>>)
        ensures
            location_of(r) == self@.get(self@.count - 1),
    {
        let mut rest = self;
        if rest.count > 0 {
            rest.nth(rest.count - 1)
        } else {
            None
        }
    }

    /// The element at the highest location, which is the last one.
    #[inline]
    #[must_use]
    pub fn max(self) -> (r: Option<VolAddress<T, R, W>>)
        ensures
            location_of(r) == self@.get(self@.count - 1),
    {
        self.last()
    }

    /// The element at the lowest location, which is the first one.
    #[inline]
    #[must_use]
    pub fn min(self) -> (r: Option<VolAddress<T, R, W>>)
        ensures
            location_of(r) == self@.get(0),
    {
        let mut rest = self;
        rest.nth(0)
    }

    /// The number of elements that are left, as the lower and the upper
    /// bound of what is still to come.
    #[inline]
    #[must_use]
    pub fn size_hint(&self) -> (r: (usize, Option<usize>))
        ensures
            r.0 == self@.count,
            r.1 == Some(r.0),
    {
        (self.count, Some(self.count))
    }

    /// The number of elements that are left.
    #[inline]
    #[must_use]
    pub fn count(self) -> (r: usize)
        ensures
            r == self@.count,
    {
        self.count
    }

    /// Yields the last element that is left.
    #[inline]
    pub fn next_back(&mut self) -> (r: Option<VolAddress<T, R, W>>)
        ensures
            location_of(r) == old(self)@.get(old(self)@.count - 1),
            final(self)@ == old(self)@.after_nth_back(0),
    {
        self.nth_back(0)
    }

    /// Skips `n` elements from the back and yields the one before them.
    /// Where no more than `n` elements are left, all of them are dropped and
    /// nothing is yielded.
    #[inline]
    pub fn nth_back(&mut self, n: usize) -> (r: Option<VolAddress<T, R, W>>)
        ensures
            location_of(r) == old(self)@.get(old(self)@.count - 1 - n),
            final(self)@ == old(self)@.after_nth_back(n as int),
    {
        proof {
            use_type_invariant(&*self);
            self@.lemma_parts_fit(0);
        }
        if n < self.count {
            let rest = self.count - (n + 1);
            proof {
                self@.lemma_at(rest as int);
                self@.lemma_parts_fit(rest as int);
            }
            let out = self.base.add_strided(S, rest);
            *self = Self { base: self.base, count: rest };
            Some(out)
        } else {
            *self = Self { base: self.base, count: 0 };
            None
        }
    }

    /// Skipping at least as many elements as are left uses the iterator up,
    /// whatever was taken before: that take gives nothing, and so does every
    /// later one.
    pub proof fn lemma_nth_past_end_exhausts(self, n: usize, k: nat)
        requires
            n >= self@.count,
        ensures
            self@.get(n as int) is None,
            self@.after_nth(n as int).count == 0,
            self@.after_nth(n as int).after_nexts(k).get(0) is None,
    {
        self@.lemma_nth_past_end(n as int, k);
    }
}

} // verus!
