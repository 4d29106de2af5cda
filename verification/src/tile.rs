//! One 8-by-8 background tile, stored as 64 pixel values in row-major
//! order.
use vstd::prelude::*;

use crate::palette::PixelValue;

verus! {

/// An 8x8 tile; the pixel at `(row, col)` sits at index `row * 8 + col`.
#[derive(Clone, Copy)]
pub struct Tile {
    pub pixels: [PixelValue; 64],
}

impl Tile {
    /// A tile whose pixels are all zero.
    pub fn empty_tile() -> (r: Tile)
        ensures
            r.pixels@ == Seq::new(64, |i: int| PixelValue::Zero),
    {
        let t = Tile { pixels: [PixelValue::Zero; 64] };
        proof {
            assert(t.pixels@ =~= Seq::new(64, |i: int| PixelValue::Zero));
        }
        t
    }
}

} // verus!
