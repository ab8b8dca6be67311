//! A block of elements addressed by column and row.

use crate::layout::Span;
use crate::voladdress::location_of;
use crate::voladdress::VolAddress;
use crate::volblock::VolBlock;
use vstd::layout::size_of;
use vstd::prelude::*;

verus! {

/// `HEIGHT` rows of `WIDTH` elements of type `T` each, row after row with
/// nothing in between.
///
/// The grid is the span of its `WIDTH * HEIGHT` elements in row-major order:
/// the element in column `x` of row `y` is element `x + y * WIDTH` of it.
#[derive(Debug, Eq, Ord, Hash)]
pub struct VolGrid2d<T, R, W, const WIDTH: usize, const HEIGHT: usize> {
    base: VolAddress<T, R, W>,
}

impl<T, R, W, const WIDTH: usize, const HEIGHT: usize> View for VolGrid2d<T, R, W, WIDTH, HEIGHT> {
    type V = Span;

    /// The span of the grid's elements, row after row.
    open spec fn view(&self) -> Span {
        Span { base: self.spec_base()@, stride: size_of::<T>(), count: (WIDTH * HEIGHT) as nat }
    }
}

impl<T, R, W, const WIDTH: usize, const HEIGHT: usize> Clone for VolGrid2d<T, R, W, WIDTH, HEIGHT> {
    #[inline]
    fn clone(&self) -> (r: Self)
        ensures
            r == *self,
    {
        *self
    }
}

impl<T, R, W, const WIDTH: usize, const HEIGHT: usize> Copy for VolGrid2d<T, R, W, WIDTH, HEIGHT> {

}

impl<T, R, W, const WIDTH: usize, const HEIGHT: usize> PartialEq for VolGrid2d<T, R, W, WIDTH, HEIGHT> {
    #[inline]
    fn eq(&self, other: &Self) -> (r: bool) {
        self.base == other.base
    }
}

impl<T, R, W, const WIDTH: usize, const HEIGHT: usize> vstd::std_specs::cmp::PartialEqSpecImpl for VolGrid2d<T, R, W, WIDTH, HEIGHT> {
    open spec fn obeys_eq_spec() -> bool {
        true
    }

    open spec fn eq_spec(&self, other: &Self) -> bool {
        self@.base == other@.base
    }
}

impl<T, R, W, const WIDTH: usize, const HEIGHT: usize> PartialOrd for VolGrid2d<T, R, W, WIDTH, HEIGHT> {
    #[inline]
    fn partial_cmp(&self, other: &Self) -> (r: Option<core::cmp::Ordering>) {
        self.base.partial_cmp(&other.base)
    }
}

impl<T, R, W, const WIDTH: usize, const HEIGHT: usize> vstd::std_specs::cmp::PartialOrdSpecImpl for VolGrid2d<T, R, W, WIDTH, HEIGHT> {
    open spec fn obeys_partial_cmp_spec() -> bool {
        true
    }

    open spec fn partial_cmp_spec(&self, other: &Self) -> Option<core::cmp::Ordering> {
        if self@.base < other@.base {
            Some(core::cmp::Ordering::Less)
        } else if self@.base > other@.base {
            Some(core::cmp::Ordering::Greater)
        } else {
            Some(core::cmp::Ordering::Equal)
        }
    }
}

impl<T, R, W, const WIDTH: usize, const HEIGHT: usize> VolGrid2d<T, R, W, WIDTH, HEIGHT> {
    /// The address of the element in column 0 of row 0.
    pub closed spec fn spec_base(&self) -> VolAddress<T, R, W> {
        self.base
    }

    /// The validity invariant: the number of elements is a `usize`, and
    /// their span fits.
    #[verifier::type_invariant]
    pub open spec fn wf(&self) -> bool {
        WIDTH * HEIGHT <= usize::MAX && self@.fits()
    }

    /// The place of the element in column `x` of row `y` in row-major order.
    pub open spec fn spec_linear(x: int, y: int) -> int {
        x + y * WIDTH
    }

    /// The raw location of the element in column `x` of row `y`, where the
    /// grid has such an element.
    pub open spec fn spec_get(&self, x: int, y: int) -> Option<usize> {
        if 0 <= x < WIDTH && 0 <= y < HEIGHT {
            Some(self@.at(Self::spec_linear(x, y)))
        } else {
            None
        }
    }

    /// The span of row `y`.
    pub open spec fn spec_row(&self, y: int) -> Span {
        self@.slice(y * WIDTH, y * WIDTH + WIDTH)
    }

    /// Makes the grid whose first element is at the location `address`.
    ///
    /// The caller vouches that every location of the grid is what `T`, `R`
    /// and `W` claim.
    #[inline]
    #[must_use]
    pub fn new(address: usize) -> (r: Self)
        requires
            address != 0,
            WIDTH * HEIGHT <= usize::MAX,
            address + size_of::<T>() * (WIDTH * HEIGHT) <= usize::MAX,
        ensures
            r@.base == address,
    {
        Self { base: VolAddress::new(address) }
    }

    /// Makes the grid whose first element is at `base`.
    #[inline]
    pub(crate) fn from_base(base: VolAddress<T, R, W>) -> (r: Self)
        requires
            WIDTH * HEIGHT <= usize::MAX,
            (Span { base: base@, stride: size_of::<T>(), count: (WIDTH * HEIGHT) as nat }).fits(),
        ensures
            r@.base == base@,
    {
        Self { base }
    }

    /// The grid over the elements of a block that has exactly as many.
    #[inline]
    #[must_use]
    pub fn from_block<const B: usize>(block: VolBlock<T, R, W, B>) -> (r: Self)
        requires
            B == WIDTH * HEIGHT,
        ensures
            r@ == block@,
    {
        proof {
            use_type_invariant(&block);
        }
        Self { base: block.base() }
    }

    /// The block of the grid's elements, which has exactly as many.
    #[inline]
    #[must_use]
    pub fn into_block<const B: usize>(self) -> (r: VolBlock<T, R, W, B>)
        requires
            B == WIDTH * HEIGHT,
        ensures
            r@ == self@,
    {
        proof {
            use_type_invariant(&self);
        }
        VolBlock::from_base(self.base)
    }

    /// The address of the element in column `x` of row `y`, or nothing where
    /// the grid has no such element.
    #[inline]
    #[must_use]
    pub fn get(self, x: usize, y: usize) -> (r: Option<VolAddress<T, R, W>>)
        ensures
            location_of(r) == self.spec_get(x as int, y as int),
    {
        if x < WIDTH && y < HEIGHT {
            Some(self.index(x, y))
        } else {
            None
        }
    }

    /// The address of the element in column `x` of row `y`.
    #[inline]
    #[must_use]
    pub fn index(self, x: usize, y: usize) -> (r: VolAddress<T, R, W>)
        requires
            x < WIDTH,
            y < HEIGHT,
        ensures
            r@ == self@.at(Self::spec_linear(x as int, y as int)),
    {
        proof {
            use_type_invariant(&self);
            lemma_linear_in_grid(x as int, y as int, WIDTH as int, HEIGHT as int);
            self@.lemma_at(Self::spec_linear(x as int, y as int));
        }
        self.base.add(x + y * WIDTH)
    }

    /// Row `y` as a block, or nothing where the grid has no such row.
    #[inline]
    #[must_use]
    pub fn get_row(self, y: usize) -> (r: Option<VolBlock<T, R, W, WIDTH>>)
        ensures
            match r {
                Some(row) => y < HEIGHT && row@ == self.spec_row(y as int),
                None => y >= HEIGHT,
            },
    {
        if y < HEIGHT {
            proof {
                use_type_invariant(&self);
                lemma_row_in_grid(y as int, WIDTH as int, HEIGHT as int);
                self@.lemma_at(y * WIDTH);
                self@.lemma_slice_fits(y * WIDTH, y * WIDTH + WIDTH);
            }
            Some(VolBlock::from_base(self.base.add(y * WIDTH)))
        } else {
            None
        }
    }

    /// The raw location of the element in column 0 of row 0.
    #[inline]
    #[must_use]
    pub fn as_usize(self) -> (r: usize)
        ensures
            r == self@.base,
            r != 0,
    {
        self.base.as_usize()
    }

    /// The element in column `x` of row `y` of a grid is element
    /// `x + y * WIDTH` of the block of the same elements.
    pub proof fn lemma_linearization<const B: usize>(
        self,
        block: VolBlock<T, R, W, B>,
        x: usize,
        y: usize,
    )
        requires
            B == WIDTH * HEIGHT,
            block@ == self@,
            x < WIDTH,
            y < HEIGHT,
        ensures
            x + y * WIDTH < B,
            self.spec_get(x as int, y as int) == block@.get(x + y * WIDTH),
            self.spec_get(x as int, y as int) == Some(block@.at(x + y * WIDTH)),
    {
        lemma_linear_in_grid(x as int, y as int, WIDTH as int, HEIGHT as int);
    }
}

/// Each row of a grid lies inside the grid.
pub proof fn lemma_row_in_grid(y: int, width: int, height: int)
    requires
        0 <= width,
        0 <= y < height,
    ensures
        0 <= y * width,
        y * width + width <= width * height,
{
    assert(0 <= y * width && y * width + width <= width * height) by (nonlinear_arith)
        requires
            0 <= y < height,
            0 <= width,
    ;
}

/// The row-major place of a column and a row of a grid lies inside the grid.
pub proof fn lemma_linear_in_grid(x: int, y: int, width: int, height: int)
    requires
        0 <= x < width,
        0 <= y < height,
    ensures
        0 <= y * width,
        0 <= x + y * width < width * height,
{
    lemma_row_in_grid(y, width, height);
}

} // verus!
