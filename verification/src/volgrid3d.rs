//! Frames of a grid that lie one directly after the other.

use crate::layout::Span;
use crate::voladdress::location_of;
use crate::voladdress::VolAddress;
use crate::volblock::VolBlock;
use crate::volgrid2d::lemma_linear_in_grid;
use crate::volgrid2d::lemma_row_in_grid;
use crate::volgrid2d::VolGrid2d;
use vstd::layout::size_of;
use vstd::prelude::*;

verus! {

/// `FRAMES` grids of `HEIGHT` rows of `WIDTH` elements each, frame after
/// frame with nothing in between.
///
/// It is the span of its `WIDTH * HEIGHT * FRAMES` elements: the element in
/// column `x` of row `y` of frame `z` is element
/// `x + y * WIDTH + z * (WIDTH * HEIGHT)` of it.
#[derive(Debug, Eq, Ord, Hash)]
pub struct VolGrid3d<T, R, W, const WIDTH: usize, const HEIGHT: usize, const FRAMES: usize> {
    base: VolAddress<T, R, W>,
}

impl<T, R, W, const WIDTH: usize, const HEIGHT: usize, const FRAMES: usize> View for VolGrid3d<T, R, W, WIDTH, HEIGHT, FRAMES> {
    type V = Span;

    /// The span of all elements, frame after frame.
    open spec fn view(&self) -> Span {
        Span {
            base: self.spec_base()@,
            stride: size_of::<T>(),
            count: (WIDTH * HEIGHT * FRAMES) as nat,
        }
    }
}

impl<T, R, W, const WIDTH: usize, const HEIGHT: usize, const FRAMES: usize> Clone for VolGrid3d<T, R, W, WIDTH, HEIGHT, FRAMES> {
    #[inline]
    fn clone(&self) -> (r: Self)
        ensures
            r == *self,
    {
        *self
    }
}

impl<T, R, W, const WIDTH: usize, const HEIGHT: usize, const FRAMES: usize> Copy for VolGrid3d<T, R, W, WIDTH, HEIGHT, FRAMES> {

}

impl<T, R, W, const WIDTH: usize, const HEIGHT: usize, const FRAMES: usize> PartialEq for VolGrid3d<T, R, W, WIDTH, HEIGHT, FRAMES> {
    #[inline]
    fn eq(&self, other: &Self) -> (r: bool) {
        self.base == other.base
    }
}

impl<T, R, W, const WIDTH: usize, const HEIGHT: usize, const FRAMES: usize> vstd::std_specs::cmp::PartialEqSpecImpl for VolGrid3d<T, R, W, WIDTH, HEIGHT, FRAMES> {
    open spec fn obeys_eq_spec() -> bool {
        true
    }

    open spec fn eq_spec(&self, other: &Self) -> bool {
        self@.base == other@.base
    }
}

impl<T, R, W, const WIDTH: usize, const HEIGHT: usize, const FRAMES: usize> PartialOrd for VolGrid3d<T, R, W, WIDTH, HEIGHT, FRAMES> {
    #[inline]
    fn partial_cmp(&self, other: &Self) -> (r: Option<core::cmp::Ordering>) {
        self.base.partial_cmp(&other.base)
    }
}

impl<T, R, W, const WIDTH: usize, const HEIGHT: usize, const FRAMES: usize> vstd::std_specs::cmp::PartialOrdSpecImpl for VolGrid3d<T, R, W, WIDTH, HEIGHT, FRAMES> {
    open spec fn obeys_partial_cmp_spec() -> bool {
        true
    }

    open spec fn partial_cmp_spec(&self, other: &Self) -> Option<core::cmp::Ordering> {
        if self@.base < other@.base {
            Some(core::cmp::Ordering::Less)
        } else if self@.base > other@.base {
            Some(core::cmp::Ordering::Greater)
        } else {
            Some(core::cmp::Ordering::Equal)
        }
    }
}

impl<T, R, W, const WIDTH: usize, const HEIGHT: usize, const FRAMES: usize> VolGrid3d<T, R, W, WIDTH, HEIGHT, FRAMES> {
    /// The address of the first element of the first frame.
    pub closed spec fn spec_base(&self) -> VolAddress<T, R, W> {
        self.base
    }

    /// The validity invariant: the number of elements is a `usize`, and
    /// their span fits.
    #[verifier::type_invariant]
    pub open spec fn wf(&self) -> bool {
        WIDTH * HEIGHT * FRAMES <= usize::MAX && self@.fits()
    }

    /// The place of the element in column `x` of row `y` of frame `z` in
    /// the span of all elements.
    pub open spec fn spec_linear(x: int, y: int, z: int) -> int {
        x + y * WIDTH + z * (WIDTH * HEIGHT)
    }

    /// The raw location of the element in column `x` of row `y` of frame
    /// `z`, where there is such an element.
    pub open spec fn spec_get(&self, x: int, y: int, z: int) -> Option<usize> {
        if 0 <= x < WIDTH && 0 <= y < HEIGHT && 0 <= z < FRAMES {
            Some(self@.at(Self::spec_linear(x, y, z)))
        } else {
            None
        }
    }

    /// The span of frame `z`.
    pub open spec fn spec_frame(&self, z: int) -> Span {
        self@.slice(z * (WIDTH * HEIGHT), z * (WIDTH * HEIGHT) + WIDTH * HEIGHT)
    }

    /// Makes the frames whose first element is at the location `address`.
    ///
    /// The caller vouches that every location of every frame is what `T`,
    /// `R` and `W` claim.
    #[inline]
    #[must_use]
    pub fn new(address: usize) -> (r: Self)
        requires
            address != 0,
            WIDTH * HEIGHT * FRAMES <= usize::MAX,
            address + size_of::<T>() * (WIDTH * HEIGHT * FRAMES) <= usize::MAX,
        ensures
            r@.base == address,
    {
        Self { base: VolAddress::new(address) }
    }

    /// The frames over the elements of a block that has exactly as many.
    #[inline]
    #[must_use]
    pub fn from_block<const B: usize>(block: VolBlock<T, R, W, B>) -> (r: Self)
        requires
            B == WIDTH * HEIGHT * FRAMES,
        ensures
            r@ == block@,
    {
        proof {
            use_type_invariant(&block);
        }
        Self { base: block.base() }
    }

    /// The block of all elements, which has exactly as many.
    #[inline]
    #[must_use]
    pub fn into_block<const B: usize>(self) -> (r: VolBlock<T, R, W, B>)
        requires
            B == WIDTH * HEIGHT * FRAMES,
        ensures
            r@ == self@,
    {
        proof {
            use_type_invariant(&self);
        }
        VolBlock::from_base(self.base)
    }

    /// The raw location of the first element of the first frame.
    #[inline]
    #[must_use]
    pub fn as_usize(self) -> (r: usize)
        ensures
            r == self@.base,
            r != 0,
    {
        self.base.as_usize()
    }

    /// Frame `z` as a grid, or nothing where there is no such frame.
    #[inline]
    #[must_use]
    pub fn get_frame(self, z: usize) -> (r: Option<VolGrid2d<T, R, W, WIDTH, HEIGHT>>)
        ensures
            match r {
                Some(frame) => z < FRAMES && frame@ == self.spec_frame(z as int),
                None => z >= FRAMES,
            },
    {
        if z < FRAMES {
            proof {
                use_type_invariant(&self);
                lemma_frame_in_grid(z as int, WIDTH as int, HEIGHT as int, FRAMES as int);
                self@.lemma_at(z * (WIDTH * HEIGHT));
                self@.lemma_slice_fits(
                    z * (WIDTH * HEIGHT),
                    z * (WIDTH * HEIGHT) + WIDTH * HEIGHT,
                );
            }
            Some(VolGrid2d::from_base(self.base.add(z * (WIDTH * HEIGHT))))
        } else {
            None
        }
    }

    /// The address of the element in column `x` of row `y` of frame `z`.
    #[inline]
    #[must_use]
    pub fn index(self, x: usize, y: usize, z: usize) -> (r: VolAddress<T, R, W>)
        requires
            x < WIDTH,
            y < HEIGHT,
            z < FRAMES,
        ensures
            r@ == self@.at(Self::spec_linear(x as int, y as int, z as int)),
    {
        proof {
            use_type_invariant(&self);
            lemma_frame_in_grid(z as int, WIDTH as int, HEIGHT as int, FRAMES as int);
            lemma_linear_in_grid(x as int, y as int, WIDTH as int, HEIGHT as int);
            self@.lemma_at(Self::spec_linear(x as int, y as int, z as int));
        }
        self.base.add(x + y * WIDTH + z * (WIDTH * HEIGHT))
    }

    /// The address of the element in column `x` of row `y` of frame `z`, or
    /// nothing where there is no such element.
    #[inline]
    #[must_use]
    pub fn get(self, x: usize, y: usize, z: usize) -> (r: Option<VolAddress<T, R, W>>)
        ensures
            location_of(r) == self.spec_get(x as int, y as int, z as int),
    {
        if x < WIDTH && y < HEIGHT && z < FRAMES {
            Some(self.index(x, y, z))
        } else {
            None
        }
    }

    /// The element in column `x` of row `y` of frame `z` is element
    /// `x + y * WIDTH + z * (WIDTH * HEIGHT)` of the block of the same
    /// elements.
    pub proof fn lemma_linearization<const B: usize>(
        self,
        block: VolBlock<T, R, W, B>,
        x: usize,
        y: usize,
        z: usize,
    )
        requires
            B == WIDTH * HEIGHT * FRAMES,
            block@ == self@,
            x < WIDTH,
            y < HEIGHT,
            z < FRAMES,
        ensures
            x + y * WIDTH + z * (WIDTH * HEIGHT) < B,
            self.spec_get(x as int, y as int, z as int) == block@.get(
                x + y * WIDTH + z * (WIDTH * HEIGHT),
            ),
    {
        lemma_frame_in_grid(z as int, WIDTH as int, HEIGHT as int, FRAMES as int);
        lemma_linear_in_grid(x as int, y as int, WIDTH as int, HEIGHT as int);
    }

    /// An element of a frame lies where the same column and row of the grid
    /// of that frame lie.
    pub proof fn lemma_frame_linearization(
        self,
        frame: VolGrid2d<T, R, W, WIDTH, HEIGHT>,
        x: usize,
        y: usize,
        z: usize,
    )
        requires
            self.wf(),
            x < WIDTH,
            y < HEIGHT,
            z < FRAMES,
            frame@ == self.spec_frame(z as int),
        ensures
            self.spec_get(x as int, y as int, z as int) == frame.spec_get(x as int, y as int),
    {
        lemma_frame_in_grid(z as int, WIDTH as int, HEIGHT as int, FRAMES as int);
        lemma_linear_in_grid(x as int, y as int, WIDTH as int, HEIGHT as int);
        self@.lemma_skip_at(z * (WIDTH * HEIGHT), x + y * WIDTH);
    }
}

/// Each frame of a run of frames lies inside the run.
pub proof fn lemma_frame_in_grid(z: int, width: int, height: int, frames: int)
    requires
        0 <= width,
        0 <= height,
        0 <= z < frames,
    ensures
        0 <= width * height,
        0 <= z * (width * height),
        z * (width * height) + width * height <= width * height * frames,
{
    assert(0 <= width * height) by (nonlinear_arith)
        requires
            0 <= width,
            0 <= height,
    ;
    lemma_row_in_grid(z, width * height, frames);
}

} // verus!
