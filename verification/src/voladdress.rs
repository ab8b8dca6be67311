//! The address of a single volatile location, tagged with its element type
//! and with what may be done to it.

use crate::layout::lemma_wrapping_backward;
use crate::layout::lemma_wrapping_forward;
use crate::layout::lemma_wrapping_round_trip;
use crate::layout::wrapping_offset;
use crate::volblock::VolBlock;
use core::marker::PhantomData;
use vstd::layout::align_nonzero;
use vstd::layout::align_of;
use vstd::layout::size_of;
use vstd::prelude::*;
use vstd::std_specs::cmp::PartialEqSpec;
use vstd::std_specs::cmp::PartialOrdSpec;

verus! {

/// The address of one volatile location that holds a `T`.
///
/// `R` and `W` say whether the location may be read and written: `Safe` when
/// any code may do so, `Unsafe` when each access needs the caller's own
/// acknowledgement, and any other type (by convention `()`) when the
/// capability does not exist. The three parameters are tags only: the value
/// is the raw location and nothing else, and two addresses are the same
/// exactly when their raw locations are.
///
/// The raw location is never zero. Whether it is aligned for `T` and backed
/// by a device is left to whoever creates the address.
#[derive(Debug, Eq, Ord, Hash)]
pub struct VolAddress<T, R, W> {
    address: usize,
    target: PhantomData<T>,
    read_status: PhantomData<R>,
    write_status: PhantomData<W>,
}

impl<T, R, W> View for VolAddress<T, R, W> {
    type V = usize;

    /// The raw location.
    closed spec fn view(&self) -> usize {
        self.address
    }
}

/// The raw location of an address that may be absent.
pub open spec fn location_of<A: View<V = usize>>(a: Option<A>) -> Option<usize> {
    match a {
        Some(a) => Some(a@),
        None => None,
    }
}

impl<T, R, W> Clone for VolAddress<T, R, W> {
    #[inline]
    fn clone(&self) -> (r: Self)
        ensures
            r == *self,
    {
        *self
    }
}

impl<T, R, W> Copy for VolAddress<T, R, W> {

}

impl<T, R, W> PartialEq for VolAddress<T, R, W> {
    #[inline]
    fn eq(&self, other: &Self) -> (r: bool) {
        self.address == other.address
    }
}

impl<T, R, W> vstd::std_specs::cmp::PartialEqSpecImpl for VolAddress<T, R, W> {
    open spec fn obeys_eq_spec() -> bool {
        true
    }

    open spec fn eq_spec(&self, other: &Self) -> bool {
        self@ == other@
    }
}

impl<T, R, W> PartialOrd for VolAddress<T, R, W> {
    #[inline]
    fn partial_cmp(&self, other: &Self) -> (r: Option<core::cmp::Ordering>) {
        if self.address < other.address {
            Some(core::cmp::Ordering::Less)
        } else if self.address > other.address {
            Some(core::cmp::Ordering::Greater)
        } else {
            Some(core::cmp::Ordering::Equal)
        }
    }
}

impl<T, R, W> vstd::std_specs::cmp::PartialOrdSpecImpl for VolAddress<T, R, W> {
    open spec fn obeys_partial_cmp_spec() -> bool {
        true
    }

    open spec fn partial_cmp_spec(&self, other: &Self) -> Option<core::cmp::Ordering> {
        if self@ < other@ {
            Some(core::cmp::Ordering::Less)
        } else if self@ > other@ {
            Some(core::cmp::Ordering::Greater)
        } else {
            Some(core::cmp::Ordering::Equal)
        }
    }
}

impl<T, R, W> VolAddress<T, R, W> {
    /// The validity invariant: the raw location is not zero.
    #[verifier::type_invariant]
    pub open spec fn wf(&self) -> bool {
        self@ != 0
    }

    /// The raw location `count` elements of `T` away from this one, wrapping
    /// around the address space.
    pub open spec fn spec_offset(&self, count: int) -> usize {
        wrapping_offset(self@, size_of::<T>(), count)
    }

    /// Whether the raw location is a multiple of the alignment of `T`.
    pub open spec fn spec_is_aligned(&self) -> bool {
        self@ as nat % align_of::<T>() == 0
    }

    /// Makes the address of the location `address`.
    ///
    /// The caller vouches that the location is what `T`, `R` and `W` claim.
    #[inline]
    #[must_use]
    pub fn new(address: usize) -> (r: Self)
        requires
            address != 0,
        ensures
            r@ == address,
    {
        Self { address, target: PhantomData, read_status: PhantomData, write_status: PhantomData }
    }

    /// The same location seen as holding a `Z`.
    #[inline]
    #[must_use]
    pub fn cast<Z>(self) -> (r: VolAddress<Z, R, W>)
        ensures
            r@ == self@,
    {
        proof {
            use_type_invariant(&self);
        }
        VolAddress {
            address: self.address,
            target: PhantomData,
            read_status: PhantomData,
            write_status: PhantomData,
        }
    }

    /// The same location with other read and write capabilities.
    #[inline]
    #[must_use]
    pub fn change_permissions<NewRead, NewWrite>(self) -> (r: VolAddress<T, NewRead, NewWrite>)
        ensures
            r@ == self@,
    {
        proof {
            use_type_invariant(&self);
        }
        VolAddress {
            address: self.address,
            target: PhantomData,
            read_status: PhantomData,
            write_status: PhantomData,
        }
    }

    /// The raw location.
    #[inline]
    #[must_use]
    pub fn as_usize(self) -> (r: usize)
        ensures
            r == self@,
            r != 0,
    {
        proof {
            use_type_invariant(&self);
        }
        self.address
    }

    /// Whether the location is aligned for `T`.
    #[inline]
    #[must_use]
    pub fn is_aligned(self) -> (r: bool)
        ensures
            r == self.spec_is_aligned(),
    {
        broadcast use align_nonzero;

        let align = core::mem::align_of::<T>();
        self.address % align == 0
    }

    /// The address `count` strides of `stride` bytes further on, wrapping
    /// around the address space.
    #[inline]
    pub(crate) fn add_strided(self, stride: usize, count: usize) -> (r: Self)
        requires
            wrapping_offset(self@, stride as nat, count as int) != 0,
        ensures
            r@ == wrapping_offset(self@, stride as nat, count as int),
    {
        proof {
            lemma_wrapping_forward(self@, stride, count);
        }
        let address = self.address.wrapping_add(stride.wrapping_mul(count));
        Self { address, target: PhantomData, read_status: PhantomData, write_status: PhantomData }
    }

    /// The address `count` strides of `stride` bytes further back, wrapping
    /// around the address space.
    #[inline]
    pub(crate) fn sub_strided(self, stride: usize, count: usize) -> (r: Self)
        requires
            wrapping_offset(self@, stride as nat, -(count as int)) != 0,
        ensures
            r@ == wrapping_offset(self@, stride as nat, -(count as int)),
    {
        proof {
            lemma_wrapping_backward(self@, stride, count);
        }
        let address = self.address.wrapping_sub(stride.wrapping_mul(count));
        Self { address, target: PhantomData, read_status: PhantomData, write_status: PhantomData }
    }

    /// The address `count` elements further on. The arithmetic wraps; the
    /// result must not be the zero location.
    #[inline]
    #[must_use]
    pub fn add(self, count: usize) -> (r: Self)
        requires
            self.spec_offset(count as int) != 0,
        ensures
            r@ == self.spec_offset(count as int),
    {
        self.add_strided(core::mem::size_of::<T>(), count)
    }

    /// The address `count` elements further back. The arithmetic wraps; the
    /// result must not be the zero location.
    #[inline]
    #[must_use]
    pub fn sub(self, count: usize) -> (r: Self)
        requires
            self.spec_offset(-(count as int)) != 0,
        ensures
            r@ == self.spec_offset(-(count as int)),
    {
        self.sub_strided(core::mem::size_of::<T>(), count)
    }

    /// The address `count` elements away, forward when `count` is positive
    /// and backward when it is negative. The arithmetic wraps; the result
    /// must not be the zero location.
    #[inline]
    #[must_use]
    pub fn offset(self, count: isize) -> (r: Self)
        requires
            self.spec_offset(count as int) != 0,
        ensures
            r@ == self.spec_offset(count as int),
    {
        if count >= 0 {
            self.add_strided(core::mem::size_of::<T>(), count as usize)
        } else {
            let back: usize = (-(count + 1)) as usize + 1;
            self.sub_strided(core::mem::size_of::<T>(), back)
        }
    }

    /// Equality and order of addresses are those of their raw locations,
    /// whatever the element type and the capabilities.
    pub proof fn lemma_compares_by_location(a: Self, b: Self)
        ensures
            a.eq_spec(&b) <==> a@ == b@,
            a.partial_cmp_spec(&b) == Some(core::cmp::Ordering::Less) <==> a@ < b@,
            a.partial_cmp_spec(&b) == Some(core::cmp::Ordering::Equal) <==> a@ == b@,
            a.partial_cmp_spec(&b) == Some(core::cmp::Ordering::Greater) <==> a@ > b@,
    {
    }

    /// Moving by `count` elements and then by `-count` elements leads back to
    /// the start, also where either step wraps.
    pub proof fn lemma_offset_round_trip(a: Self, b: Self, count: int)
        requires
            b@ == a.spec_offset(count),
        ensures
            b.spec_offset(-count) == a@,
    {
        lemma_wrapping_round_trip(a@, size_of::<T>(), count);
    }
}

impl<T, R, W, const C: usize> VolAddress<[T; C], R, W> {
    /// The block of the `C` elements of the array at this address.
    #[inline]
    #[must_use]
    pub fn as_volblock(self) -> (r: VolBlock<T, R, W, C>)
        requires
            self@ + size_of::<T>() * C <= usize::MAX,
        ensures
            r@.base == self@,
    {
        proof {
            use_type_invariant(&self);
        }
        VolBlock::from_base(self.cast::<T>())
    }
}

} // verus!
