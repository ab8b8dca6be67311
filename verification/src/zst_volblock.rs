//! A block whose first raw location is part of its type.

use crate::layout::Span;
use crate::voladdress::location_of;
use crate::voladdress::VolAddress;
use crate::volblock::VolBlockIter;
use crate::zst_voladdress::ZstVolAddress;
use core::marker::PhantomData;
use vstd::layout::size_of;
use vstd::prelude::*;

verus! {

/// `C` elements of type `T` that lie one directly after the other, the first
/// of them at the location `A`.
///
/// The value itself holds nothing. It is the span of its elements, which
/// fits into the address space with the position one past its last element.
#[derive(Debug, Eq, Hash)]
pub struct ZstVolBlock<T, R, W, const C: usize, const A: usize> {
    base: ZstVolAddress<T, R, W, A>,
    target: PhantomData<T>,
    read_status: PhantomData<R>,
    write_status: PhantomData<W>,
}

impl<T, R, W, const C: usize, const A: usize> View for ZstVolBlock<T, R, W, C, A> {
    type V = Span;

    /// The span of the block's elements.
    open spec fn view(&self) -> Span {
        Span { base: A, stride: size_of::<T>(), count: C as nat }
    }
}

impl<T, R, W, const C: usize, const A: usize> Clone for ZstVolBlock<T, R, W, C, A> {
    #[inline]
    fn clone(&self) -> (r: Self)
        ensures
            r == *self,
    {
        *self
    }
}

impl<T, R, W, const C: usize, const A: usize> Copy for ZstVolBlock<T, R, W, C, A> {

}

impl<T, R, W, const C: usize, const LEFT: usize, const RIGHT: usize> PartialEq<ZstVolBlock<T, R, W, C, RIGHT>> for ZstVolBlock<T, R, W, C, LEFT> {
    #[inline]
    fn eq(&self, other: &ZstVolBlock<T, R, W, C, RIGHT>) -> (r: bool) {
        LEFT == RIGHT
    }
}

impl<T, R, W, const C: usize, const LEFT: usize, const RIGHT: usize> vstd::std_specs::cmp::PartialEqSpecImpl<ZstVolBlock<T, R, W, C, RIGHT>> for ZstVolBlock<T, R, W, C, LEFT> {
    open spec fn obeys_eq_spec() -> bool {
        true
    }

    open spec fn eq_spec(&self, other: &ZstVolBlock<T, R, W, C, RIGHT>) -> bool {
        LEFT == RIGHT
    }
}

impl<T, R, W, const C: usize, const A: usize> ZstVolBlock<T, R, W, C, A> {
    /// The validity invariant: the span of the elements fits.
    #[verifier::type_invariant]
    pub open spec fn wf(&self) -> bool {
        self@.fits()
    }

    /// Makes the block that starts at the location `A`.
    ///
    /// The caller vouches that each of the `C` locations is what `T`, `R` and
    /// `W` claim.
    #[inline]
    #[must_use]
    pub fn new() -> (r: Self)
        requires
            A != 0,
            A + size_of::<T>() * C <= usize::MAX,
        ensures
            r@ == (Span { base: A, stride: size_of::<T>(), count: C as nat }),
    {
        Self {
            base: ZstVolAddress::new(),
            target: PhantomData,
            read_status: PhantomData,
            write_status: PhantomData,
        }
    }

    /// The address of element `i`.
    #[inline]
    #[must_use]
    pub fn index(self, i: usize) -> (r: VolAddress<T, R, W>)
        requires
            i < C,
        ensures
            r@ == self@.at(i as int),
    {
        proof {
            use_type_invariant(&self);
            self@.lemma_at(i as int);
        }
        VolAddress::new(A).add(i)
    }

    /// The address of element `i`, or nothing where the block has no such
    /// element.
    #[inline]
    #[must_use]
    pub fn get(self, i: usize) -> (r: Option<VolAddress<T, R, W>>)
        ensures
            location_of(r) == self@.get(i as int),
    {
        if i < C {
            Some(self.index(i))
        } else {
            None
        }
    }

    /// An iterator over the addresses of all elements, first to last.
    #[inline]
    #[must_use]
    pub fn iter(self) -> (r: VolBlockIter<T, R, W>)
        ensures
            r@ == self@,
    {
        proof {
            use_type_invariant(&self);
        }
        VolBlockIter::from_parts(VolAddress::new(A), C)
    }
}

} // verus!
