//! Per-block colour statistics of an icon, from which its dominant colour is
//! picked: each 4×4 block's average colour and how far its channels spread.
//!
//! A block's confidence is `1 - spread / 765` (765 is three channels'
//! full range); an empty block has spread 765, that is, no confidence.
use vstd::prelude::*;
use vstd::arithmetic::mul::lemma_mul_inequality;
use crate::icons::dds::{decode_dds, dds_decode_may_panic, dds_rgba8};

verus! {

/// An RGB colour.
pub type Rgb8 = [u8; 3];

/// The spread of a block with no pixels: no confidence at all.
pub const EMPTY_SPREAD: i32 = 765;

/// The side of the square blocks the statistics are kept for.
pub const BLOCK: usize = 4;

/// The bucket of a colour: its channels' top four bits.
pub fn bucket_key(rgb: Rgb8) -> (r: (u8, u8, u8))
    ensures
        r == ((rgb[0] / 16) as u8, (rgb[1] / 16) as u8, (rgb[2] / 16) as u8),
{
    let r = rgb[0];
    let g = rgb[1];
    let b = rgb[2];
    assert(r >> 4 == r / 16) by (bit_vector);
    assert(g >> 4 == g / 16) by (bit_vector);
    assert(b >> 4 == b / 16) by (bit_vector);
    (r >> 4, g >> 4, b >> 4)
}

/// Channel `c` of the pixel at (`x`, `y`) of RGBA rows `width` pixels wide.
pub open spec fn px(data: Seq<u8>, width: int, x: int, y: int, c: int) -> int {
    data[(y * width + x) * 4 + c] as int
}

pub open spec fn row_sum(data: Seq<u8>, width: int, y: int, x0: int, x1: int, c: int) -> int
    decreases x1 - x0,
{
    if x1 <= x0 {
        0
    } else {
        row_sum(data, width, y, x0, x1 - 1, c) + px(data, width, x1 - 1, y, c)
    }
}

pub open spec fn row_min(data: Seq<u8>, width: int, y: int, x0: int, x1: int, c: int) -> int
    decreases x1 - x0,
{
    if x1 <= x0 {
        255
    } else {
        let m = row_min(data, width, y, x0, x1 - 1, c);
        let p = px(data, width, x1 - 1, y, c);
        if p < m {
            p
        } else {
            m
        }
    }
}

pub open spec fn row_max(data: Seq<u8>, width: int, y: int, x0: int, x1: int, c: int) -> int
    decreases x1 - x0,
{
    if x1 <= x0 {
        0
    } else {
        let m = row_max(data, width, y, x0, x1 - 1, c);
        let p = px(data, width, x1 - 1, y, c);
        if p > m {
            p
        } else {
            m
        }
    }
}

/// The sum of channel `c` over the block `[x0, x1) × [y0, y1)`.
pub open spec fn block_sum(data: Seq<u8>, width: int, x0: int, x1: int, y0: int, y1: int, c: int) -> int
    decreases y1 - y0,
{
    if y1 <= y0 {
        0
    } else {
        block_sum(data, width, x0, x1, y0, y1 - 1, c) + row_sum(data, width, y1 - 1, x0, x1, c)
    }
}

/// The least value of channel `c` over the block (255 if it is empty).
pub open spec fn block_min(data: Seq<u8>, width: int, x0: int, x1: int, y0: int, y1: int, c: int) -> int
    decreases y1 - y0,
{
    if y1 <= y0 {
        255
    } else {
        let m = block_min(data, width, x0, x1, y0, y1 - 1, c);
        let r = row_min(data, width, y1 - 1, x0, x1, c);
        if r < m {
            r
        } else {
            m
        }
    }
}

/// The greatest value of channel `c` over the block (0 if it is empty).
pub open spec fn block_max(data: Seq<u8>, width: int, x0: int, x1: int, y0: int, y1: int, c: int) -> int
    decreases y1 - y0,
{
    if y1 <= y0 {
        0
    } else {
        let m = block_max(data, width, x0, x1, y0, y1 - 1, c);
        let r = row_max(data, width, y1 - 1, x0, x1, c);
        if r > m {
            r
        } else {
            m
        }
    }
}

/// A block's average colour (each channel's sum divided by the pixel count,
/// rounded down) and spread (the sum over the channels of their greatest
/// minus their least value); an empty block is black with `EMPTY_SPREAD`.
pub open spec fn spec_block_average(
    data: Seq<u8>,
    width: int,
    x0: int,
    y0: int,
    x1: int,
    y1: int,
) -> (Rgb8, i32) {
    if x0 >= x1 || y0 >= y1 {
        ([0u8, 0u8, 0u8], EMPTY_SPREAD)
    } else {
        let n = (x1 - x0) * (y1 - y0);
        (
            [
                (block_sum(data, width, x0, x1, y0, y1, 0) / n) as u8,
                (block_sum(data, width, x0, x1, y0, y1, 1) / n) as u8,
                (block_sum(data, width, x0, x1, y0, y1, 2) / n) as u8,
            ],
            ((block_max(data, width, x0, x1, y0, y1, 0) - block_min(data, width, x0, x1, y0, y1, 0))
                + (block_max(data, width, x0, x1, y0, y1, 1) - block_min(
                data,
                width,
                x0,
                x1,
                y0,
                y1,
                1,
            )) + (block_max(data, width, x0, x1, y0, y1, 2) - block_min(
                data,
                width,
                x0,
                x1,
                y0,
                y1,
                2,
            ))) as i32,
        )
    }
}

proof fn lemma_row_bounds(data: Seq<u8>, width: int, y: int, x0: int, x1: int, c: int)
    ensures
        0 <= row_min(data, width, y, x0, x1, c) <= 255,
        0 <= row_max(data, width, y, x0, x1, c) <= 255,
        forall|x: int|
            x0 <= x < x1 ==> row_min(data, width, y, x0, x1, c) <= #[trigger] px(data, width, x, y, c)
                <= row_max(data, width, y, x0, x1, c),
    decreases x1 - x0,
{
    if x1 > x0 {
        lemma_row_bounds(data, width, y, x0, x1 - 1, c);
    }
}

proof fn lemma_block_bounds(data: Seq<u8>, width: int, x0: int, x1: int, y0: int, y1: int, c: int)
    ensures
        0 <= block_min(data, width, x0, x1, y0, y1, c) <= 255,
        0 <= block_max(data, width, x0, x1, y0, y1, c) <= 255,
        forall|x: int, y: int|
            x0 <= x < x1 && y0 <= y < y1 ==> block_min(data, width, x0, x1, y0, y1, c)
                <= #[trigger] px(data, width, x, y, c) <= block_max(data, width, x0, x1, y0, y1, c),
    decreases y1 - y0,
{
    if y1 > y0 {
        lemma_block_bounds(data, width, x0, x1, y0, y1 - 1, c);
        lemma_row_bounds(data, width, y1 - 1, x0, x1, c);
    }
}

/// A block's spread bounds how far any two of its pixels differ in any of
/// the three colour channels, and lies between 0 and `EMPTY_SPREAD`.
pub proof fn lemma_spread_covers_differences(
    data: Seq<u8>,
    width: int,
    x0: int,
    y0: int,
    x1: int,
    y1: int,
)
    requires
        x0 < x1,
        y0 < y1,
    ensures
        0 <= spec_block_average(data, width, x0, y0, x1, y1).1 <= EMPTY_SPREAD,
        forall|xa: int, ya: int, xb: int, yb: int, c: int|
            x0 <= xa < x1 && y0 <= ya < y1 && x0 <= xb < x1 && y0 <= yb < y1 && 0 <= c < 3
                ==> #[trigger] px(data, width, xa, ya, c) - #[trigger] px(data, width, xb, yb, c)
                <= spec_block_average(data, width, x0, y0, x1, y1).1,
{
    lemma_block_bounds(data, width, x0, x1, y0, y1, 0);
    lemma_block_bounds(data, width, x0, x1, y0, y1, 1);
    lemma_block_bounds(data, width, x0, x1, y0, y1, 2);
    assert(px(data, width, x0, y0, 0) == px(data, width, x0, y0, 0));
    assert(px(data, width, x0, y0, 1) == px(data, width, x0, y0, 1));
    assert(px(data, width, x0, y0, 2) == px(data, width, x0, y0, 2));
}

/// The block lies inside the pixel data, and its channel sums fit in a `u32`.
pub open spec fn block_fits(len: int, width: int, x0: int, y0: int, x1: int, y1: int) -> bool {
    x0 < x1 && y0 < y1 ==> {
        &&& ((y1 - 1) * width + x1 - 1) * 4 + 2 < len
        &&& (x1 - x0) * (y1 - y0) * 255 <= u32::MAX
    }
}

/// Statistics of the block `[x0, x1) × [y0, y1)` of RGBA rows `width`
/// pixels wide (see `spec_block_average`).
pub fn block_average(data: &[u8], width: usize, x0: usize, y0: usize, x1: usize, y1: usize) -> (r: (
    Rgb8,
    i32,
))
    requires
        block_fits(data@.len() as int, width as int, x0 as int, y0 as int, x1 as int, y1 as int),
    ensures
        r == spec_block_average(data@, width as int, x0 as int, y0 as int, x1 as int, y1 as int),
        x0 < x1 && y0 < y1 ==> 0 <= r.1 <= EMPTY_SPREAD,
        forall|xa: int, ya: int, xb: int, yb: int, c: int|
            x0 <= xa < x1 && y0 <= ya < y1 && x0 <= xb < x1 && y0 <= yb < y1 && 0 <= c < 3
                ==> #[trigger] px(data@, width as int, xa, ya, c) - #[trigger] px(
                data@,
                width as int,
                xb,
                yb,
                c,
            ) <= r.1,
{
    if x0 >= x1 || y0 >= y1 {
        return ([0, 0, 0], EMPTY_SPREAD);
    }
    let ghost d = data@;
    let ghost w = width as int;
    let ghost last = (y1 - 1) * w + x1 - 1;
    let mut s0: u32 = 0;
    let mut s1: u32 = 0;
    let mut s2: u32 = 0;
    let mut mn0: u8 = 255;
    let mut mn1: u8 = 255;
    let mut mn2: u8 = 255;
    let mut mx0: u8 = 0;
    let mut mx1: u8 = 0;
    let mut mx2: u8 = 0;
    let mut count: u32 = 0;
    let mut y = y0;
    let len = data.len();
    assert((x1 - x0) * (y1 - y0) == (y1 - y0) * (x1 - x0)) by (nonlinear_arith);
    assert(0 * (x1 - x0) == 0) by (nonlinear_arith);
    while y < y1
        invariant
            d == data@,
            w == width,
            x0 < x1,
            y0 < y1,
            y0 <= y <= y1,
            last == (y1 - 1) * w + x1 - 1,
            last * 4 + 2 < d.len(),
            d.len() == len,
            (y1 - y0) * (x1 - x0) * 255 <= u32::MAX,
            count == (y - y0) * (x1 - x0),
            s0 == block_sum(d, w, x0 as int, x1 as int, y0 as int, y as int, 0),
            s1 == block_sum(d, w, x0 as int, x1 as int, y0 as int, y as int, 1),
            s2 == block_sum(d, w, x0 as int, x1 as int, y0 as int, y as int, 2),
            s0 <= 255 * count,
            s1 <= 255 * count,
            s2 <= 255 * count,
            mn0 == block_min(d, w, x0 as int, x1 as int, y0 as int, y as int, 0),
            mn1 == block_min(d, w, x0 as int, x1 as int, y0 as int, y as int, 1),
            mn2 == block_min(d, w, x0 as int, x1 as int, y0 as int, y as int, 2),
            mx0 == block_max(d, w, x0 as int, x1 as int, y0 as int, y as int, 0),
            mx1 == block_max(d, w, x0 as int, x1 as int, y0 as int, y as int, 1),
            mx2 == block_max(d, w, x0 as int, x1 as int, y0 as int, y as int, 2),
        decreases y1 - y,
    {
        proof {
            lemma_mul_inequality(y as int, (y1 - 1) as int, w);
            lemma_mul_inequality((y - y0 + 1) as int, (y1 - y0) as int, (x1 - x0) as int);
            assert((y - y0 + 1) * (x1 - x0) == (y - y0) * (x1 - x0) + (x1 - x0)) by (nonlinear_arith);
        }
        let row = y * width;
        let mut x = x0;
        let ghost rs0 = s0;
        let ghost rs1 = s1;
        let ghost rs2 = s2;
        let ghost rn0 = mn0 as int;
        let ghost rn1 = mn1 as int;
        let ghost rn2 = mn2 as int;
        let ghost rx0 = mx0 as int;
        let ghost rx1 = mx1 as int;
        let ghost rx2 = mx2 as int;
        let ghost rc = count;
        while x < x1
            invariant
                d == data@,
                w == width,
                x0 <= x <= x1,
                y0 <= y < y1,
                row == y * w,
                row + x1 - 1 <= last,
                last * 4 + 2 < d.len(),
                d.len() == len,
                rc == (y - y0) * (x1 - x0),
                rc + (x1 - x0) <= (y1 - y0) * (x1 - x0),
                (y1 - y0) * (x1 - x0) * 255 <= u32::MAX,
                count == rc + (x - x0),
                rs0 <= 255 * rc,
                rs1 <= 255 * rc,
                rs2 <= 255 * rc,
                s0 == rs0 + row_sum(d, w, y as int, x0 as int, x as int, 0),
                s1 == rs1 + row_sum(d, w, y as int, x0 as int, x as int, 1),
                s2 == rs2 + row_sum(d, w, y as int, x0 as int, x as int, 2),
                s0 <= 255 * count,
                s1 <= 255 * count,
                s2 <= 255 * count,
                mn0 == (if row_min(d, w, y as int, x0 as int, x as int, 0) < rn0 {
                    row_min(d, w, y as int, x0 as int, x as int, 0)
                } else {
                    rn0
                }),
                mn1 == (if row_min(d, w, y as int, x0 as int, x as int, 1) < rn1 {
                    row_min(d, w, y as int, x0 as int, x as int, 1)
                } else {
                    rn1
                }),
                mn2 == (if row_min(d, w, y as int, x0 as int, x as int, 2) < rn2 {
                    row_min(d, w, y as int, x0 as int, x as int, 2)
                } else {
                    rn2
                }),
                mx0 == (if row_max(d, w, y as int, x0 as int, x as int, 0) > rx0 {
                    row_max(d, w, y as int, x0 as int, x as int, 0)
                } else {
                    rx0
                }),
                mx1 == (if row_max(d, w, y as int, x0 as int, x as int, 1) > rx1 {
                    row_max(d, w, y as int, x0 as int, x as int, 1)
                } else {
                    rx1
                }),
                mx2 == (if row_max(d, w, y as int, x0 as int, x as int, 2) > rx2 {
                    row_max(d, w, y as int, x0 as int, x as int, 2)
                } else {
                    rx2
                }),
            decreases x1 - x,
        {
            let idx = (row + x) * 4;
            let p0 = data[idx];
            let p1 = data[idx + 1];
            let p2 = data[idx + 2];
            assert(p0 == px(d, w, x as int, y as int, 0));
            assert(p1 == px(d, w, x as int, y as int, 1));
            assert(p2 == px(d, w, x as int, y as int, 2));
            s0 = s0 + p0 as u32;
            s1 = s1 + p1 as u32;
            s2 = s2 + p2 as u32;
            if p0 < mn0 {
                mn0 = p0;
            }
            if p1 < mn1 {
                mn1 = p1;
            }
            if p2 < mn2 {
                mn2 = p2;
            }
            if p0 > mx0 {
                mx0 = p0;
            }
            if p1 > mx1 {
                mx1 = p1;
            }
            if p2 > mx2 {
                mx2 = p2;
            }
            count = count + 1;
            x = x + 1;
        }
        assert((y - y0 + 1) * (x1 - x0) == (y - y0) * (x1 - x0) + (x1 - x0)) by (nonlinear_arith);
        y = y + 1;
    }
    proof {
        assert(count > 0) by (nonlinear_arith)
            requires
                count == (y1 - y0) * (x1 - x0),
                y1 > y0,
                x1 > x0,
        ;
        assert(s0 / count <= 255) by (nonlinear_arith)
            requires
                s0 <= 255 * count,
                count > 0,
        ;
        assert(s1 / count <= 255) by (nonlinear_arith)
            requires
                s1 <= 255 * count,
                count > 0,
        ;
        assert(s2 / count <= 255) by (nonlinear_arith)
            requires
                s2 <= 255 * count,
                count > 0,
        ;
    }
    let avg: Rgb8 = [(s0 / count) as u8, (s1 / count) as u8, (s2 / count) as u8];
    let spread: i32 = (mx0 as i32 - mn0 as i32) + (mx1 as i32 - mn1 as i32) + (mx2 as i32
        - mn2 as i32);
    proof {
        lemma_spread_covers_differences(data@, width as int, x0 as int, y0 as int, x1 as int, y1 as int);
    }
    (avg, spread)
}

pub open spec fn min_int(a: int, b: int) -> int {
    if a < b {
        a
    } else {
        b
    }
}

/// The statistics of block (`bx`, `by`) of an RGBA image `width` by
/// `height` pixels: the block's pixels are those of the `BLOCK`-square at
/// (`bx`·`BLOCK`, `by`·`BLOCK`) that lie inside the image.
pub open spec fn image_block(data: Seq<u8>, width: int, height: int, bx: int, by: int) -> (Rgb8, i32) {
    spec_block_average(
        data,
        width,
        bx * 4,
        by * 4,
        min_int(bx * 4 + 4, width),
        min_int(by * 4 + 4, height),
    )
}

/// The block (`x` / `block_size`, `y` / `block_size`) holding a pixel, if the
/// statistics cover it.
pub open spec fn spec_get(blocks: Seq<Seq<(Rgb8, i32)>>, block_size: u32, x: u32, y: u32) -> Option<
    (Rgb8, i32),
> {
    let bx = (x / block_size) as int;
    let by = (y / block_size) as int;
    if blocks.len() <= by || blocks[0].len() <= bx {
        None
    } else {
        Some(blocks[by][bx])
    }
}

/// The statistics of an icon, per block, row by row.
pub struct PrimaryColors {
    pc: Vec<Vec<(Rgb8, i32)>>,
    block_size: u32,
}

impl PrimaryColors {
    #[verifier::type_invariant]
    spec fn rows_alike(&self) -> bool {
        &&& self.block_size > 0
        &&& forall|i: int| 0 <= i < self.pc@.len() ==> (#[trigger] self.pc@[i])@.len() == self.pc@[0]@.len()
    }

    /// The blocks' statistics, row by row.
    pub closed spec fn blocks(&self) -> Seq<Seq<(Rgb8, i32)>> {
        self.pc@.map_values(|r: Vec<(Rgb8, i32)>| r@)
    }

    /// The side of a block in pixels.
    pub closed spec fn size(&self) -> u32 {
        self.block_size
    }

    /// The statistics of the block holding pixel (`x`, `y`); `None` outside
    /// the image.
    pub fn get(&self, x: u32, y: u32) -> (r: Option<(Rgb8, i32)>)
        ensures
            r == spec_get(self.blocks(), self.size(), x, y),
    {
        proof {
            use_type_invariant(self);
        }
        let bx = (x / self.block_size) as usize;
        let by = (y / self.block_size) as usize;
        if self.pc.len() <= by || self.pc[0].len() <= bx {
            return None;
        }
        Some(self.pc[by][bx])
    }

    /// The statistics of each `BLOCK`-square block of an RGBA image `width`
    /// by `height` pixels (`data` holds its rows of 4-byte pixels), the blocks
    /// at the right and bottom edges cut to the image.
    pub fn build_from_rgba(width: usize, height: usize, data: &[u8]) -> (r: Self)
        requires
            width + 4 <= usize::MAX,
            height + 4 <= usize::MAX,
            width * height * 4 <= data@.len(),
        ensures
            r.size() == 4,
            r.blocks().len() == (height + 3) / 4,
            forall|by: int|
                0 <= by < r.blocks().len() ==> (#[trigger] r.blocks()[by]).len() == (width + 3) / 4,
            forall|by: int, bx: int|
                0 <= by < r.blocks().len() && 0 <= bx < (width + 3) / 4 ==> #[trigger] r.blocks()[by][bx]
                    == image_block(data@, width as int, height as int, bx, by),
    {
        let blocks_wide = (width + BLOCK - 1) / BLOCK;
        let blocks_high = (height + BLOCK - 1) / BLOCK;
        let mut pc: Vec<Vec<(Rgb8, i32)>> = Vec::new();
        let mut by: usize = 0;
        while by < blocks_high
            invariant
                blocks_wide == (width + 3) / 4,
                blocks_high == (height + 3) / 4,
                width + 4 <= usize::MAX,
                height + 4 <= usize::MAX,
                width * height * 4 <= data@.len(),
                by <= blocks_high,
                pc@.len() == by,
                forall|i: int| 0 <= i < by ==> (#[trigger] pc@[i])@.len() == blocks_wide,
                forall|i: int, j: int|
                    0 <= i < by && 0 <= j < blocks_wide ==> #[trigger] pc@[i]@[j] == image_block(
                        data@,
                        width as int,
                        height as int,
                        j,
                        i,
                    ),
            decreases blocks_high - by,
        {
            let mut row: Vec<(Rgb8, i32)> = Vec::new();
            let mut bx: usize = 0;
            while bx < blocks_wide
                invariant
                    blocks_wide == (width + 3) / 4,
                    blocks_high == (height + 3) / 4,
                    width + 4 <= usize::MAX,
                    height + 4 <= usize::MAX,
                    width * height * 4 <= data@.len(),
                    by < blocks_high,
                    bx <= blocks_wide,
                    row@.len() == bx,
                    forall|j: int|
                        0 <= j < bx ==> #[trigger] row@[j] == image_block(
                            data@,
                            width as int,
                            height as int,
                            j,
                            by as int,
                        ),
                decreases blocks_wide - bx,
            {
                let x0 = bx * BLOCK;
                let y0 = by * BLOCK;
                let x1 = if x0 + BLOCK < width {
                    x0 + BLOCK
                } else {
                    width
                };
                let y1 = if y0 + BLOCK < height {
                    y0 + BLOCK
                } else {
                    height
                };
                proof {
                    lemma_image_block_fits(
                        data@.len() as int,
                        width as int,
                        height as int,
                        x0 as int,
                        y0 as int,
                        x1 as int,
                        y1 as int,
                    );
                }
                let stats = block_average(data, width, x0, y0, x1, y1);
                row.push(stats);
                bx += 1;
            }
            pc.push(row);
            by += 1;
        }
        let r = PrimaryColors { pc, block_size: BLOCK as u32 };
        assert forall|by: int| 0 <= by < r.blocks().len() implies (#[trigger] r.blocks()[by]).len()
            == (width + 3) / 4 by {
            assert(r.blocks()[by] == r.pc@[by]@);
        }
        assert forall|by: int, bx: int|
            0 <= by < r.blocks().len() && 0 <= bx < (width + 3) / 4 implies #[trigger] r.blocks()[by][bx]
                == image_block(data@, width as int, height as int, bx, by) by {
            assert(r.blocks()[by] == r.pc@[by]@);
        }
        r
    }
}

/// Whether `len` bytes hold a `width` by `height` RGBA image whose block
/// counts can be computed.
pub open spec fn rgba_fits(len: int, width: int, height: int) -> bool {
    &&& width + 4 <= usize::MAX
    &&& height + 4 <= usize::MAX
    &&& width * height * 4 <= len
}

/// Whether `pc` holds the block statistics of the RGBA image `data`.
pub open spec fn stats_of(pc: PrimaryColors, data: Seq<u8>, width: int, height: int) -> bool {
    &&& pc.size() == 4
    &&& pc.blocks().len() == (height + 3) / 4
    &&& forall|by: int| 0 <= by < pc.blocks().len() ==> (#[trigger] pc.blocks()[by]).len() == (width + 3) / 4
    &&& forall|by: int, bx: int|
        0 <= by < pc.blocks().len() && 0 <= bx < (width + 3) / 4 ==> #[trigger] pc.blocks()[by][bx]
            == image_block(data, width, height, bx, by)
}

impl PrimaryColors {
    /// The block statistics of a DDS texture: `None` where it does not
    /// decode (or is one whose decoding would overflow, see
    /// `dds_decode_may_panic`), or decodes to fewer bytes than its size needs.
    pub fn try_from_dds(bytes: &[u8]) -> (r: Option<PrimaryColors>)
        ensures
            dds_decode_may_panic(bytes@) ==> r is None,
            !dds_decode_may_panic(bytes@) ==> match dds_rgba8(bytes@) {
                None => r is None,
                Some((data, width, height)) => if rgba_fits(data.len() as int, width as int, height as int) {
                    r matches Some(pc) && stats_of(pc, data, width as int, height as int)
                } else {
                    r is None
                },
            },
    {
        let (data, width, height) = match decode_dds(bytes) {
            Some(d) => d,
            None => return None,
        };
        let len = data.len();
        let w = width as usize;
        let h = height as usize;
        if w > usize::MAX - 4 || h > usize::MAX - 4 {
            return None;
        }
        let area = match w.checked_mul(h) {
            Some(a) => a,
            None => {
                proof {
                    assert(w * h * 4 > data@.len()) by (nonlinear_arith)
                        requires
                            w * h > usize::MAX,
                            data@.len() == len,
                    ;
                }
                return None;
            },
        };
        let bytes_needed = match area.checked_mul(4) {
            Some(b) => b,
            None => {
                assert(w * h * 4 > data@.len());
                return None;
            },
        };
        if bytes_needed > data.len() {
            return None;
        }
        Some(PrimaryColors::build_from_rgba(w, h, data.as_slice()))
    }
}

proof fn lemma_image_block_fits(len: int, width: int, height: int, x0: int, y0: int, x1: int, y1: int)
    requires
        0 <= x0 < x1 <= width,
        0 <= y0 < y1 <= height,
        x1 - x0 <= 4,
        y1 - y0 <= 4,
        width * height * 4 <= len,
    ensures
        block_fits(len, width, x0, y0, x1, y1),
{
    lemma_mul_inequality(y1 - 1, height - 1, width);
    assert((height - 1) * width + width == height * width) by (nonlinear_arith);
    assert((x1 - x0) * (y1 - y0) <= 16) by (nonlinear_arith)
        requires
            0 < x1 - x0 <= 4,
            0 < y1 - y0 <= 4,
    ;
}

} // verus!
