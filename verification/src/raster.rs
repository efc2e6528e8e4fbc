//! The order in which the pixels of an image are rendered.
//!
//! Pixels leave the renderer row by row, the top row first, and from left to
//! right within a row. A pixel is named by its column, counted from the left,
//! and its row, counted from the bottom, so the first pixel of the stream is
//! column 0 of row `height - 1`.
use vstd::arithmetic::div_mod::{
    lemma_div_is_ordered, lemma_fundamental_div_mod, lemma_fundamental_div_mod_converse,
};
use crate::scalar::{clamp, clamp_spec, Key, ZERO};
use vstd::prelude::*;

verus! {

/// The key of 0.999, the largest value of a colour channel that is written
/// out. Scaled by 256 it stays below 256, so the channel fits into eight
/// bits.
pub const CHANNEL_MAX: Key = 0x3fef_f7ce_d916_872b;

/// Brings the value `x` of a colour channel into the range that is written
/// out, from 0 to 0.999: a value below zero becomes zero, a value above 0.999
/// becomes 0.999.
pub fn clamp_channel(x: Key) -> (r: Key)
    ensures
        r == clamp_spec(x as int, ZERO as int, CHANNEL_MAX as int),
        ZERO <= r <= CHANNEL_MAX,
{
    clamp(x, ZERO, CHANNEL_MAX)
}

/// The size of an image in pixels.
#[derive(Clone, Copy, Debug, PartialEq, Eq, Structural)]
pub struct Raster {
    /// The number of columns.
    pub width: u32,
    /// The number of rows.
    pub height: u32,
}

impl Raster {
    /// The number of pixels.
    pub open spec fn len(self) -> int {
        self.width * self.height
    }

    /// Whether the image has a pixel in this column and row.
    pub open spec fn holds(self, column: int, row: int) -> bool {
        0 <= column < self.width && 0 <= row < self.height
    }

    /// Column and row of the pixel at place `k` of the stream.
    pub open spec fn pixel_at_spec(self, k: int) -> (int, int) {
        (k % (self.width as int), self.height - 1 - k / (self.width as int))
    }

    /// The place in the stream of the pixel in this column and row.
    pub open spec fn place_of(self, column: int, row: int) -> int {
        (self.height - 1 - row) * self.width + column
    }

    /// An image of `width` by `height` pixels.
    pub fn new(width: u32, height: u32) -> (raster: Self)
        ensures
            raster.width == width,
            raster.height == height,
    {
        Raster { width, height }
    }

    /// The number of pixels in the stream.
    pub fn pixel_count(&self) -> (n: u64)
        ensures
            n == self.len(),
    {
        assert(self.width * self.height <= 0xffff_ffff * 0xffff_ffff) by (nonlinear_arith)
            requires
                self.width <= 0xffff_ffff,
                self.height <= 0xffff_ffff,
        ;
        self.width as u64 * self.height as u64
    }

    /// Column and row of the pixel at place `k` of the stream, or `None` where
    /// the stream is shorter.
    pub fn pixel_at(&self, k: u64) -> (pixel: Option<(u32, u32)>)
        ensures
            k >= self.len() ==> pixel is None,
            k < self.len() ==> pixel == Some(
                (self.pixel_at_spec(k as int).0 as u32, self.pixel_at_spec(k as int).1 as u32),
            ),
            pixel matches Some((column, row)) ==> self.holds(column as int, row as int),
    {
        if k >= self.pixel_count() {
            return None;
        }
        proof {
            lemma_place_in_bounds(k as int, self.width as int, self.height as int);
        }
        let width: u64 = self.width as u64;
        let rows_above: u64 = k / width;
        let column: u32 = (k % width) as u32;
        let row: u32 = (self.height as u64 - 1 - rows_above) as u32;
        Some((column, row))
    }
}

/// A place below `width * height` lies in one of the `height` rows.
proof fn lemma_place_in_bounds(k: int, width: int, height: int)
    requires
        0 <= k < width * height,
        0 <= width,
        0 <= height,
    ensures
        width > 0,
        0 <= k / width < height,
        0 <= k % width < width,
{
    assert(width > 0) by (nonlinear_arith)
        requires
            0 <= k < width * height,
            0 <= width,
    ;
    assert(0 <= k / width < height && 0 <= k % width < width) by (nonlinear_arith)
        requires
            0 <= k < width * height,
            width > 0,
    ;
}

/// The stream holds every pixel of the image: the pixel in a column and row
/// of the image stands at a place below the stream's length, and the stream
/// has this very pixel there.
pub proof fn lemma_every_pixel_is_rendered(raster: Raster, column: int, row: int)
    requires
        raster.holds(column, row),
    ensures
        0 <= raster.place_of(column, row) < raster.len(),
        raster.pixel_at_spec(raster.place_of(column, row)) == (column, row),
{
    let width = raster.width as int;
    let height = raster.height as int;
    let rows_above = height - 1 - row;
    assert(0 <= rows_above * width <= (height - 1) * width) by (nonlinear_arith)
        requires
            0 <= rows_above <= height - 1,
            0 < width,
    ;
    assert((height - 1) * width + width == width * height) by (nonlinear_arith);
    lemma_fundamental_div_mod_converse(raster.place_of(column, row), width, rows_above, column);
}

/// No pixel is rendered twice: the pixel at a place of the stream is a pixel
/// of the image, and its place is the one it was taken from.
pub proof fn lemma_no_pixel_is_rendered_twice(raster: Raster, k: int)
    requires
        0 <= k < raster.len(),
    ensures
        raster.holds(raster.pixel_at_spec(k).0, raster.pixel_at_spec(k).1),
        raster.place_of(raster.pixel_at_spec(k).0, raster.pixel_at_spec(k).1) == k,
{
    let width = raster.width as int;
    lemma_place_in_bounds(k, width, raster.height as int);
    lemma_fundamental_div_mod(k, width);
    assert(width * (k / width) == (k / width) * width) by (nonlinear_arith);
}

/// The stream runs through the rows from the top one down, and through each
/// row from left to right: of two places, the earlier one holds a pixel of a
/// higher row, or one further left in the same row.
pub proof fn lemma_stream_order(raster: Raster, k1: int, k2: int)
    requires
        0 <= k1 < k2 < raster.len(),
    ensures
        ({
            let (column1, row1) = raster.pixel_at_spec(k1);
            let (column2, row2) = raster.pixel_at_spec(k2);
            row1 > row2 || (row1 == row2 && column1 < column2)
        }),
{
    let width = raster.width as int;
    lemma_place_in_bounds(k1, width, raster.height as int);
    lemma_div_is_ordered(k1, k2, width);
    lemma_fundamental_div_mod(k1, width);
    lemma_fundamental_div_mod(k2, width);
}

} // verus!
