//! An address whose raw location is part of its type.

use crate::voladdress::VolAddress;
use core::marker::PhantomData;
use vstd::prelude::*;

verus! {

/// The address of the volatile location `A`, which holds a `T`.
///
/// The value itself holds nothing: the location is known when the program is
/// compiled, and so cannot be moved. `to_plain` gives the address as a
/// value that can.
#[derive(Debug, Eq, Ord, Hash)]
pub struct ZstVolAddress<T, R, W, const A: usize> {
    target: PhantomData<T>,
    read_status: PhantomData<R>,
    write_status: PhantomData<W>,
}

impl<T, R, W, const A: usize> View for ZstVolAddress<T, R, W, A> {
    type V = usize;

    /// The raw location.
    open spec fn view(&self) -> usize {
        A
    }
}

impl<T, R, W, const A: usize> Clone for ZstVolAddress<T, R, W, A> {
    #[inline]
    fn clone(&self) -> (r: Self)
        ensures
            r == *self,
    {
        *self
    }
}

impl<T, R, W, const A: usize> Copy for ZstVolAddress<T, R, W, A> {

}

impl<T, R, W, const LEFT: usize, const RIGHT: usize> PartialEq<ZstVolAddress<T, R, W, RIGHT>> for ZstVolAddress<T, R, W, LEFT> {
    #[inline]
    fn eq(&self, other: &ZstVolAddress<T, R, W, RIGHT>) -> (r: bool) {
        LEFT == RIGHT
    }
}

impl<T, R, W, const LEFT: usize, const RIGHT: usize> vstd::std_specs::cmp::PartialEqSpecImpl<ZstVolAddress<T, R, W, RIGHT>> for ZstVolAddress<T, R, W, LEFT> {
    open spec fn obeys_eq_spec() -> bool {
        true
    }

    open spec fn eq_spec(&self, other: &ZstVolAddress<T, R, W, RIGHT>) -> bool {
        LEFT == RIGHT
    }
}

impl<T, R, W, const LEFT: usize, const RIGHT: usize> PartialOrd<ZstVolAddress<T, R, W, RIGHT>> for ZstVolAddress<T, R, W, LEFT> {
    #[inline]
    fn partial_cmp(&self, other: &ZstVolAddress<T, R, W, RIGHT>) -> (r: Option<core::cmp::Ordering>) {
        if LEFT < RIGHT {
            Some(core::cmp::Ordering::Less)
        } else if LEFT > RIGHT {
            Some(core::cmp::Ordering::Greater)
        } else {
            Some(core::cmp::Ordering::Equal)
        }
    }
}

impl<T, R, W, const LEFT: usize, const RIGHT: usize> vstd::std_specs::cmp::PartialOrdSpecImpl<ZstVolAddress<T, R, W, RIGHT>> for ZstVolAddress<T, R, W, LEFT> {
    open spec fn obeys_partial_cmp_spec() -> bool {
        true
    }

    open spec fn partial_cmp_spec(&self, other: &ZstVolAddress<T, R, W, RIGHT>) -> Option<core::cmp::Ordering> {
        if LEFT < RIGHT {
            Some(core::cmp::Ordering::Less)
        } else if LEFT > RIGHT {
            Some(core::cmp::Ordering::Greater)
        } else {
            Some(core::cmp::Ordering::Equal)
        }
    }
}

impl<T, R, W, const A: usize> ZstVolAddress<T, R, W, A> {
    /// The validity invariant: the raw location is not zero.
    #[verifier::type_invariant]
    pub open spec fn wf(&self) -> bool {
        A != 0
    }

    /// Makes the address of the location `A`.
    ///
    /// The caller vouches that the location is what `T`, `R` and `W` claim.
    #[inline]
    #[must_use]
    pub fn new() -> (r: Self)
        requires
            A != 0,
        ensures
            r@ == A,
    {
        Self { target: PhantomData, read_status: PhantomData, write_status: PhantomData }
    }

    /// The address of the location `A` as a value.
    #[inline]
    #[must_use]
    pub fn to_plain() -> (r: VolAddress<T, R, W>)
        requires
            A != 0,
        ensures
            r@ == A,
    {
        VolAddress::new(A)
    }
}

} // verus!
