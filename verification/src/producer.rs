//! The pixel-producing capability: fill logic supplied by the rasterizer,
//! invoked by the adapter to populate a segment of its row buffer.

use vstd::prelude::*;

use crate::display::HEIGHT;
use crate::display::Pixel;
use crate::display::WIDTH;

verus! {

/// A producer of rendered pixel values, one row segment at a time.
///
/// `pixel_at` is the mathematical content of the producer: the pixel it
/// renders at a given row and column. `fill` writes exactly those values
/// into the columns `[start, end)` of a row buffer and touches nothing
/// else, so the adapter never transmits stale or out-of-range data.
pub trait PixelProducer {
    /// The pixel this producer renders at (row, col).
    spec fn pixel_at(&self, row: int, col: int) -> Pixel;

    /// Fills columns `[start, end)` of `buf` with the rendered pixels of
    /// `row`, leaving every other element of `buf` unchanged.
    fn fill(&self, buf: &mut Vec<Pixel>, row: usize, start: usize, end: usize)
        requires
            row < HEIGHT,
            start <= end,
            end <= WIDTH,
            end <= old(buf).len(),
        ensures
            final(buf)@.len() == old(buf)@.len(),
            forall|i: int| start <= i < end ==> final(buf)@[i] == self.pixel_at(row as int, i),
            forall|i: int|
                0 <= i < old(buf)@.len() && !(start <= i < end) ==> final(buf)@[i] == old(
                    buf,
                )@[i],
    ;
}

/// Renders a single solid color everywhere.
pub struct SolidProducer {
    pub color: Pixel,
}

impl PixelProducer for SolidProducer {
    open spec fn pixel_at(&self, row: int, col: int) -> Pixel {
        self.color
    }

    fn fill(&self, buf: &mut Vec<Pixel>, row: usize, start: usize, end: usize) {
        let mut i: usize = start;
        while i < end
            invariant
                start <= i <= end,
                end <= buf@.len(),
                buf@.len() == old(buf)@.len(),
                forall|j: int| start <= j < i ==> buf@[j] == self.color,
                forall|j: int|
                    0 <= j < old(buf)@.len() && !(start <= j < i) ==> buf@[j] == old(buf)@[j],
            decreases end - i,
        {
            buf[i] = self.color;
            i += 1;
        }
    }
}

/// Renders each column's index as its pixel value, so a transmitted
/// segment reveals exactly which columns it came from.
pub struct ColumnProducer {}

impl PixelProducer for ColumnProducer {
    open spec fn pixel_at(&self, row: int, col: int) -> Pixel {
        (col % 0x10000) as Pixel
    }

    fn fill(&self, buf: &mut Vec<Pixel>, row: usize, start: usize, end: usize) {
        let mut i: usize = start;
        while i < end
            invariant
                start <= i <= end,
                end <= WIDTH,
                end <= buf@.len(),
                buf@.len() == old(buf)@.len(),
                forall|j: int| start <= j < i ==> buf@[j] == self.pixel_at(row as int, j),
                forall|j: int|
                    0 <= j < old(buf)@.len() && !(start <= j < i) ==> buf@[j] == old(buf)@[j],
            decreases end - i,
        {
            buf[i] = i as u16;
            i += 1;
        }
    }
}

} // verus!
