//! Frames of a grid that lie a fixed number of bytes apart.

use crate::layout::Span;
use crate::voladdress::VolAddress;
use crate::volgrid2d::VolGrid2d;
use vstd::layout::size_of;
use vstd::prelude::*;

verus! {

/// `FRAMES` grids of `HEIGHT` rows of `WIDTH` elements each, the start of
/// each frame `BYTE_STRIDE` bytes after the start of the one before it.
///
/// The stride is free of the size of a frame: frames may lie apart, follow
/// one another directly, or overlap. The value is the span of the frames'
/// starts; every frame lies below the top of the address space.
#[derive(Debug, Eq, Ord, Hash)]
pub struct VolGrid2dStrided<T, R, W, const WIDTH: usize, const HEIGHT: usize, const FRAMES: usize, const BYTE_STRIDE: usize> {
    base: VolAddress<T, R, W>,
}

impl<T, R, W, const WIDTH: usize, const HEIGHT: usize, const FRAMES: usize, const BYTE_STRIDE: usize> View for VolGrid2dStrided<T, R, W, WIDTH, HEIGHT, FRAMES, BYTE_STRIDE> {
    type V = Span;

    /// The span of the locations at which the frames start.
    open spec fn view(&self) -> Span {
        Span { base: self.spec_base()@, stride: BYTE_STRIDE as nat, count: FRAMES as nat }
    }
}

impl<T, R, W, const WIDTH: usize, const HEIGHT: usize, const FRAMES: usize, const BYTE_STRIDE: usize> Clone for VolGrid2dStrided<T, R, W, WIDTH, HEIGHT, FRAMES, BYTE_STRIDE> {
    #[inline]
    fn clone(&self) -> (r: Self)
        ensures
            r == *self,
    {
        *self
    }
}

impl<T, R, W, const WIDTH: usize, const HEIGHT: usize, const FRAMES: usize, const BYTE_STRIDE: usize> Copy for VolGrid2dStrided<T, R, W, WIDTH, HEIGHT, FRAMES, BYTE_STRIDE> {

}

impl<T, R, W, const WIDTH: usize, const HEIGHT: usize, const FRAMES: usize, const BYTE_STRIDE: usize> PartialEq for VolGrid2dStrided<T, R, W, WIDTH, HEIGHT, FRAMES, BYTE_STRIDE> {
    #[inline]
    fn eq(&self, other: &Self) -> (r: bool) {
        self.base == other.base
    }
}

impl<T, R, W, const WIDTH: usize, const HEIGHT: usize, const FRAMES: usize, const BYTE_STRIDE: usize> vstd::std_specs::cmp::PartialEqSpecImpl for VolGrid2dStrided<T, R, W, WIDTH, HEIGHT, FRAMES, BYTE_STRIDE> {
    open spec fn obeys_eq_spec() -> bool {
        true
    }

    open spec fn eq_spec(&self, other: &Self) -> bool {
        self@.base == other@.base
    }
}

impl<T, R, W, const WIDTH: usize, const HEIGHT: usize, const FRAMES: usize, const BYTE_STRIDE: usize> PartialOrd for VolGrid2dStrided<T, R, W, WIDTH, HEIGHT, FRAMES, BYTE_STRIDE> {
    #[inline]
    fn partial_cmp(&self, other: &Self) -> (r: Option<core::cmp::Ordering>) {
        self.base.partial_cmp(&other.base)
    }
}

impl<T, R, W, const WIDTH: usize, const HEIGHT: usize, const FRAMES: usize, const BYTE_STRIDE: usize> vstd::std_specs::cmp::PartialOrdSpecImpl for VolGrid2dStrided<T, R, W, WIDTH, HEIGHT, FRAMES, BYTE_STRIDE> {
    open spec fn obeys_partial_cmp_spec() -> bool {
        true
    }

    open spec fn partial_cmp_spec(&self, other: &Self) -> Option<core::cmp::Ordering> {
        if self@.base < other@.base {
            Some(core::cmp::Ordering::Less)
        } else if self@.base > other@.base {
            Some(core::cmp::Ordering::Greater)
        } else {
            Some(core::cmp::Ordering::Equal)
        }
    }
}

impl<T, R, W, const WIDTH: usize, const HEIGHT: usize, const FRAMES: usize, const BYTE_STRIDE: usize> VolGrid2dStrided<T, R, W, WIDTH, HEIGHT, FRAMES, BYTE_STRIDE> {
    /// The address of the first element of the first frame.
    pub closed spec fn spec_base(&self) -> VolAddress<T, R, W> {
        self.base
    }

    /// Whether frames that start at `base` are valid: the start is not the
    /// zero location, the number of elements of a frame is a `usize`, and
    /// the last frame, and so each one, ends at or below the top of the
    /// address space.
    pub open spec fn spec_valid(base: usize) -> bool {
        &&& base != 0
        &&& WIDTH * HEIGHT <= usize::MAX
        &&& FRAMES > 0 ==> base + BYTE_STRIDE * (FRAMES - 1) + size_of::<T>() * (WIDTH * HEIGHT)
            <= usize::MAX
    }

    /// The validity invariant.
    #[verifier::type_invariant]
    pub open spec fn wf(&self) -> bool {
        Self::spec_valid(self@.base)
    }

    /// The span of the elements of frame `z`.
    pub open spec fn spec_frame(&self, z: int) -> Span {
        Span { base: self@.at(z), stride: size_of::<T>(), count: (WIDTH * HEIGHT) as nat }
    }

    /// Makes the frames of which the first starts at the location `address`.
    ///
    /// The caller vouches that every location of every frame is what `T`,
    /// `R` and `W` claim.
    #[inline]
    #[must_use]
    pub fn new(address: usize) -> (r: Self)
        requires
            Self::spec_valid(address),
        ensures
            r@.base == address,
    {
        Self { base: VolAddress::new(address) }
    }

    /// The raw location of the first element of the first frame.
    #[inline]
    #[must_use]
    pub fn as_usize(self) -> (r: usize)
        ensures
            r == self@.base,
            r != 0,
    {
        self.base.as_usize()
    }

    /// Frame `z` as a grid, or nothing where there is no such frame.
    #[inline]
    #[must_use]
    pub fn get_frame(self, z: usize) -> (r: Option<VolGrid2d<T, R, W, WIDTH, HEIGHT>>)
        ensures
            match r {
                Some(frame) => z < FRAMES && frame@ == self.spec_frame(z as int),
                None => z >= FRAMES,
            },
    {
        if z < FRAMES {
            proof {
                use_type_invariant(&self);
                self.lemma_frame_start(z);
                self@.take(z as int).lemma_at(z as int);
            }
            Some(VolGrid2d::from_base(self.base.add_strided(BYTE_STRIDE, z)))
        } else {
            None
        }
    }

    /// Frame `z` starts exactly `z` strides after the first frame, whatever
    /// the size of a frame, and it fits.
    pub proof fn lemma_frame_start(self, z: usize)
        requires
            self.wf(),
            z < FRAMES,
        ensures
            self.spec_frame(z as int).base == self@.base + z * BYTE_STRIDE,
            self.spec_frame(z as int).fits(),
            self@.take(z as int).fits(),
    {
        assert(0 <= BYTE_STRIDE * z <= BYTE_STRIDE * (FRAMES - 1)) by (nonlinear_arith)
            requires
                0 <= z <= FRAMES - 1,
        ;
        assert(BYTE_STRIDE * z == z * BYTE_STRIDE) by (nonlinear_arith);
        assert(0 <= size_of::<T>() * (WIDTH * HEIGHT)) by (nonlinear_arith);
        self@.take(z as int).lemma_at(z as int);
    }
}

} // verus!
