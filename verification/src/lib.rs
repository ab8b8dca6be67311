//! Typed descriptors of memory-mapped locations, which must only ever be
//! accessed with volatile loads and stores.
//!
//! A [`VolAddress`] is one such location: a raw location that is never zero,
//! tagged with the type of the value it holds and with whether it may be
//! read and written. Blocks, series, grids and regions are runs of such
//! locations, and hand out the address of each of their elements by index or
//! through an iterator.
//!
//! Every value here is a plain, copyable descriptor. Nothing in this crate
//! touches the memory it describes: it computes locations, and proves that
//! each location it hands out is one that the maker of the value vouched
//! for. What the maker vouches for is stated as the precondition of each
//! constructor, and kept from then on as an invariant of the type.

use vstd::prelude::*;

pub mod layout;
pub mod range;
pub mod read_only;
pub mod voladdress;
pub mod volblock;
pub mod volgrid2d;
pub mod volgrid2d_strided;
pub mod volgrid3d;
pub mod volregion;
pub mod volseries;
pub mod write_only;
pub mod zst_voladdress;
pub mod zst_volblock;

pub use layout::Span;
pub use range::range_within;
pub use range::Bound;
pub use voladdress::VolAddress;
pub use volblock::VolBlock;
pub use volblock::VolBlockIter;
pub use volgrid2d::VolGrid2d;
pub use volgrid2d_strided::VolGrid2dStrided;
pub use volgrid3d::VolGrid3d;
pub use volregion::VolRegion;
pub use volseries::VolSeries;
pub use volseries::VolSeriesIter;
pub use zst_voladdress::ZstVolAddress;
pub use zst_volblock::ZstVolBlock;

verus! {

/// Marks a capability of an address as one that any code may use.
#[derive(Debug, Default, Clone, Copy, PartialEq, Eq, PartialOrd, Ord, Hash)]
pub struct Safe;

/// Marks a capability of an address as one that may be used only on the
/// caller's own word that it is sound to do so.
#[derive(Debug, Default, Clone, Copy, PartialEq, Eq, PartialOrd, Ord, Hash)]
pub struct Unsafe;

} // verus!
