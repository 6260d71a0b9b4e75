//! Block-wise downscaling by majority vote over direction tags.
//!
//! Per-pixel classification is noisy at full resolution. For each block
//! of side `downscale` the stage scans a window of that side centred on
//! the block's base pixel, tallies the four directional tags found in
//! it (cells outside the grid count as no edge, as does a trailing
//! partial block, which is dropped), and emits one coarse pixel: the
//! winning direction's colour where the votes pass a density floor of a
//! fifth of the squared block side, else black.

use vstd::prelude::*;

use crate::grid::Image;
use crate::pixel::{decode_direction, direction_pix, direction_pixel, Direction, Pix};

verus! {

/// The direction tag at `(x, y)`: the decoded colour of the pixel
/// there, or no edge outside the grid.
pub open spec fn dir_at(img: Image, x: int, y: int) -> Direction {
    if img.in_bounds(x, y) {
        decode_direction(img.pix_at(x, y).r, img.pix_at(x, y).g, img.pix_at(x, y).b)
    } else {
        Direction::NoEdge
    }
}

/// Votes for `d` among the cells `(x, y)` with `x0 <= x < x1` of row `y`.
pub open spec fn count_row(img: Image, d: Direction, y: int, x0: int, x1: int) -> nat
    decreases x1 - x0,
{
    if x1 <= x0 {
        0
    } else {
        count_row(img, d, y, x0, x1 - 1) + (if dir_at(img, x1 - 1, y) == d {
            1nat
        } else {
            0nat
        })
    }
}

/// Votes for `d` in the window of rows `y0 <= y < y1` and columns
/// `x0 <= x < x1`.
pub open spec fn count_win(img: Image, d: Direction, y0: int, y1: int, x0: int, x1: int) -> nat
    decreases y1 - y0,
{
    if y1 <= y0 {
        0
    } else {
        count_win(img, d, y0, y1 - 1, x0, x1) + count_row(img, d, y1 - 1, x0, x1)
    }
}

/// Votes for `d` in the window of side `dscale` centred on block
/// `(bj, bi)`'s base pixel `(bj * dscale, bi * dscale)`; for an odd
/// side the extra cell lies below and to the right of the base. A
/// window is never empty: at block side 1 it is the base pixel itself.
pub open spec fn win_count(img: Image, dscale: int, bj: int, bi: int, d: Direction) -> nat {
    count_win(
        img,
        d,
        bi * dscale - dscale / 2,
        bi * dscale + (dscale + 1) / 2,
        bj * dscale - dscale / 2,
        bj * dscale + (dscale + 1) / 2,
    )
}

/// The direction with the highest vote count; ties go to the earlier of
/// vertical, horizontal, backward, forward.
pub open spec fn major_direction(cv: nat, ch: nat, cb: nat, cf: nat) -> Direction {
    if cv >= ch && cv >= cb && cv >= cf {
        Direction::Vertical
    } else if ch >= cb && ch >= cf {
        Direction::Horizontal
    } else if cb >= cf {
        Direction::Backward
    } else {
        Direction::Forward
    }
}

/// The coarse pixel for block `(bj, bi)`: the winning direction's
/// colour where the window's total votes exceed `dscale^2 / 5`, else
/// the colour of no edge.
pub open spec fn block_pix(img: Image, dscale: int, bj: int, bi: int) -> Pix {
    let cv = win_count(img, dscale, bj, bi, Direction::Vertical);
    let ch = win_count(img, dscale, bj, bi, Direction::Horizontal);
    let cb = win_count(img, dscale, bj, bi, Direction::Backward);
    let cf = win_count(img, dscale, bj, bi, Direction::Forward);
    if cv + ch + cb + cf > (dscale * dscale) / 5 {
        direction_pix(major_direction(cv, ch, cb, cf))
    } else {
        direction_pix(Direction::NoEdge)
    }
}

/// A row in which no cell carries `d` casts no vote for `d`.
proof fn lemma_count_row_zero(img: Image, d: Direction, y: int, x0: int, x1: int)
    requires
        forall|x: int| x0 <= x < x1 ==> dir_at(img, x, y) != d,
    ensures
        count_row(img, d, y, x0, x1) == 0,
    decreases x1 - x0,
{
    if x1 > x0 {
        lemma_count_row_zero(img, d, y, x0, x1 - 1);
    }
}

/// A window in which no cell carries `d` casts no vote for `d`.
proof fn lemma_count_win_zero(img: Image, d: Direction, y0: int, y1: int, x0: int, x1: int)
    requires
        forall|x: int, y: int| x0 <= x < x1 && y0 <= y < y1 ==> dir_at(img, x, y) != d,
    ensures
        count_win(img, d, y0, y1, x0, x1) == 0,
    decreases y1 - y0,
{
    if y1 > y0 {
        lemma_count_win_zero(img, d, y0, y1 - 1, x0, x1);
        lemma_count_row_zero(img, d, y1 - 1, x0, x1);
    }
}

/// A row in which every cell carries `d` casts one vote per cell.
proof fn lemma_count_row_full(img: Image, d: Direction, y: int, x0: int, x1: int)
    requires
        x0 <= x1,
        forall|x: int| x0 <= x < x1 ==> dir_at(img, x, y) == d,
    ensures
        count_row(img, d, y, x0, x1) == x1 - x0,
    decreases x1 - x0,
{
    if x1 > x0 {
        lemma_count_row_full(img, d, y, x0, x1 - 1);
    }
}

/// A window in which every cell carries `d` casts one vote per cell.
proof fn lemma_count_win_full(img: Image, d: Direction, y0: int, y1: int, x0: int, x1: int)
    requires
        x0 <= x1,
        y0 <= y1,
        forall|x: int, y: int| x0 <= x < x1 && y0 <= y < y1 ==> dir_at(img, x, y) == d,
    ensures
        count_win(img, d, y0, y1, x0, x1) == (y1 - y0) * (x1 - x0),
    decreases y1 - y0,
{
    if y1 > y0 {
        lemma_count_win_full(img, d, y0, y1 - 1, x0, x1);
        lemma_count_row_full(img, d, y1 - 1, x0, x1);
        assert((y1 - y0) * (x1 - x0) == (y1 - 1 - y0) * (x1 - x0) + 1 * (x1 - x0))
            by (nonlinear_arith);
    } else {
        assert((y1 - y0) * (x1 - x0) == 0) by (nonlinear_arith)
            requires
                y1 == y0,
        ;
    }
}

/// Law: a window without directional votes aggregates to black. If
/// every cell of block `(bj, bi)`'s window carries no edge, the vote
/// total is zero, which never exceeds the density floor, whatever the
/// block size.
pub proof fn lemma_aggregate_all_none(img: Image, dscale: int, bj: int, bi: int)
    requires
        dscale >= 1,
        forall|x: int, y: int|
            bj * dscale - dscale / 2 <= x < bj * dscale + (dscale + 1) / 2 && bi * dscale - dscale
                / 2 <= y < bi * dscale + (dscale + 1) / 2 ==> dir_at(img, x, y)
                == Direction::NoEdge,
    ensures
        block_pix(img, dscale, bj, bi) == direction_pix(Direction::NoEdge),
{
    let y0 = bi * dscale - dscale / 2;
    let y1 = bi * dscale + (dscale + 1) / 2;
    let x0 = bj * dscale - dscale / 2;
    let x1 = bj * dscale + (dscale + 1) / 2;
    lemma_count_win_zero(img, Direction::Vertical, y0, y1, x0, x1);
    lemma_count_win_zero(img, Direction::Horizontal, y0, y1, x0, x1);
    lemma_count_win_zero(img, Direction::Backward, y0, y1, x0, x1);
    lemma_count_win_zero(img, Direction::Forward, y0, y1, x0, x1);
    assert(dscale * dscale >= 0) by (nonlinear_arith);
    assert((dscale * dscale) / 5 >= 0);
}

/// Law: a window saturated with one direction aggregates to that
/// direction's colour, for every block size. If every cell of block
/// `(bj, bi)`'s window carries the directional tag `d`, the vote total
/// is the full window area `dscale^2`, which exceeds the density floor
/// `dscale^2 / 5`.
pub proof fn lemma_aggregate_saturated(img: Image, dscale: int, bj: int, bi: int, d: Direction)
    requires
        dscale >= 1,
        d != Direction::NoEdge,
        forall|x: int, y: int|
            bj * dscale - dscale / 2 <= x < bj * dscale + (dscale + 1) / 2 && bi * dscale - dscale
                / 2 <= y < bi * dscale + (dscale + 1) / 2 ==> dir_at(img, x, y) == d,
    ensures
        block_pix(img, dscale, bj, bi) == direction_pix(d),
{
    let y0 = bi * dscale - dscale / 2;
    let y1 = bi * dscale + (dscale + 1) / 2;
    let x0 = bj * dscale - dscale / 2;
    let x1 = bj * dscale + (dscale + 1) / 2;
    assert(y1 - y0 == dscale && x1 - x0 == dscale);
    lemma_count_win_full(img, d, y0, y1, x0, x1);
    assert(count_win(img, d, y0, y1, x0, x1) == dscale * dscale);

    if d != Direction::Vertical {
        lemma_count_win_zero(img, Direction::Vertical, y0, y1, x0, x1);
    }
    if d != Direction::Horizontal {
        lemma_count_win_zero(img, Direction::Horizontal, y0, y1, x0, x1);
    }
    if d != Direction::Backward {
        lemma_count_win_zero(img, Direction::Backward, y0, y1, x0, x1);
    }
    if d != Direction::Forward {
        lemma_count_win_zero(img, Direction::Forward, y0, y1, x0, x1);
    }

    // The full window beats the floor: dscale^2 > dscale^2 / 5 for
    // dscale >= 1.
    assert(dscale * dscale > (dscale * dscale) / 5 && dscale * dscale > 0) by (nonlinear_arith)
        requires
            dscale >= 1,
    ;
}

/// A block index below `w / d` keeps the whole block inside `w`.
proof fn lemma_block_base(w: int, d: int, b: int)
    by (nonlinear_arith)
    requires
        d >= 1,
        0 <= w,
        0 <= b < w / d,
    ensures
        0 <= b * d,
        b * d + d <= w,
{
}

/// A window tally stays far below the largest 64-bit value.
proof fn lemma_win_area(rows: int, cols: int, part: int, d: int)
    by (nonlinear_arith)
    requires
        0 <= rows <= d,
        0 <= cols <= d,
        0 <= part <= d,
        0 <= d <= 0xffff_ffff,
    ensures
        rows * cols + part < 0xffff_ffff_ffff_ffff,
{
}

impl Image {
    /// Tallies the window of block `(bj, bi)` and emits its coarse pixel.
    fn block_at(&self, bj: u32, bi: u32) -> (p: Pix)
        requires
            self.wf(),
            self.dims_fit(),
            self.downscale >= 1,
            bj < self.width / self.downscale,
            bi < self.height / self.downscale,
        ensures
            p == block_pix(*self, self.downscale as int, bj as int, bi as int),
    {
        let d = self.downscale;
        let half = d / 2;
        // the window's reach past the base, `(d + 1) / 2`, written
        // without the overflowing `d + 1`
        let half_up = d - half;
        proof {
            lemma_block_base(self.width as int, d as int, bj as int);
            lemma_block_base(self.height as int, d as int, bi as int);
            assert(half_up as int == (d as int + 1) / 2);
        }
        let cx: u32 = bj * d;
        let cy: u32 = bi * d;
        let x0: i32 = cx as i32 - half as i32;
        let x1: i32 = cx as i32 + half_up as i32;
        let y0: i32 = cy as i32 - half as i32;
        let y1: i32 = cy as i32 + half_up as i32;

        let mut cv: u64 = 0;
        let mut ch: u64 = 0;
        let mut cb: u64 = 0;
        let mut cf: u64 = 0;

        for yy in y0..y1
            invariant
                self.wf(),
                self.dims_fit(),
                self.downscale >= 1,
                x1 - x0 == self.downscale,
                y1 - y0 == self.downscale,
                y0 <= yy <= y1,
                cv == count_win(
                    *self,
                    Direction::Vertical,
                    y0 as int,
                    yy as int,
                    x0 as int,
                    x1 as int,
                ),
                ch == count_win(
                    *self,
                    Direction::Horizontal,
                    y0 as int,
                    yy as int,
                    x0 as int,
                    x1 as int,
                ),
                cb == count_win(
                    *self,
                    Direction::Backward,
                    y0 as int,
                    yy as int,
                    x0 as int,
                    x1 as int,
                ),
                cf == count_win(
                    *self,
                    Direction::Forward,
                    y0 as int,
                    yy as int,
                    x0 as int,
                    x1 as int,
                ),
                cv + ch + cb + cf <= (yy - y0) * (x1 - x0),
        {
            for xx in x0..x1
                invariant
                    self.wf(),
                    self.dims_fit(),
                    self.downscale >= 1,
                    x1 - x0 == self.downscale,
                    y0 <= yy < y1,
                    y1 - y0 == self.downscale,
                    x0 <= xx <= x1,
                    cv == count_win(
                        *self,
                        Direction::Vertical,
                        y0 as int,
                        yy as int,
                        x0 as int,
                        x1 as int,
                    ) + count_row(*self, Direction::Vertical, yy as int, x0 as int, xx as int),
                    ch == count_win(
                        *self,
                        Direction::Horizontal,
                        y0 as int,
                        yy as int,
                        x0 as int,
                        x1 as int,
                    ) + count_row(*self, Direction::Horizontal, yy as int, x0 as int, xx as int),
                    cb == count_win(
                        *self,
                        Direction::Backward,
                        y0 as int,
                        yy as int,
                        x0 as int,
                        x1 as int,
                    ) + count_row(*self, Direction::Backward, yy as int, x0 as int, xx as int),
                    cf == count_win(
                        *self,
                        Direction::Forward,
                        y0 as int,
                        yy as int,
                        x0 as int,
                        x1 as int,
                    ) + count_row(*self, Direction::Forward, yy as int, x0 as int, xx as int),
                    cv + ch + cb + cf <= (yy - y0) * (x1 - x0) + (xx - x0),
            {
                proof {
                    lemma_win_area(
                        yy as int - y0 as int,
                        x1 as int - x0 as int,
                        xx as int - x0 as int,
                        self.downscale as int,
                    );
                }
                let dir = match self.get(xx, yy) {
                    Some(p) => p.pix_direction(),
                    None => Direction::NoEdge,
                };
                match dir {
                    Direction::Vertical => {
                        cv = cv + 1;
                    },
                    Direction::Horizontal => {
                        ch = ch + 1;
                    },
                    Direction::Backward => {
                        cb = cb + 1;
                    },
                    Direction::Forward => {
                        cf = cf + 1;
                    },
                    Direction::NoEdge => {},
                }
            }
            proof {
                assert((yy - y0 + 1) * (x1 - x0) == (yy - y0) * (x1 - x0) + (x1 - x0))
                    by (nonlinear_arith);
            }
        }

        proof {
            lemma_win_area(
                y1 as int - y0 as int,
                x1 as int - x0 as int,
                0,
                self.downscale as int,
            );
            assert(d as int * d as int <= 0xffff_ffff * 0xffff_ffff) by (nonlinear_arith)
                requires
                    0 <= d as int <= 0xffff_ffff,
            ;
        }
        let sum: u64 = cv + ch + cb + cf;
        let dd: u64 = (d as u64) * (d as u64);
        if sum > dd / 5 {
            let m = if cv >= ch && cv >= cb && cv >= cf {
                Direction::Vertical
            } else if ch >= cb && ch >= cf {
                Direction::Horizontal
            } else if cb >= cf {
                Direction::Backward
            } else {
                Direction::Forward
            };
            direction_pixel(m)
        } else {
            direction_pixel(Direction::NoEdge)
        }
    }

    /// Majority-vote downscaling: pools this direction-classified grid
    /// into blocks of side `downscale`, one coarse pixel per whole
    /// block (a trailing partial block is dropped), with the result's
    /// own `downscale` reset to 1.
    pub fn resize_sobel(&self) -> (res: Image)
        requires
            self.wf(),
            self.dims_fit(),
            self.downscale >= 1,
        ensures
            res.wf(),
            res.height == self.height / self.downscale,
            res.width == self.width / self.downscale,
            res.downscale == 1,
            forall|bx: int, by: int|
                res.in_bounds(bx, by) ==> #[trigger] res.pix_at(bx, by) == block_pix(
                    *self,
                    self.downscale as int,
                    bx,
                    by,
                ),
    {
        let bw = self.width / self.downscale;
        let bh = self.height / self.downscale;

        let mut pixels: Vec<Vec<Pix>> = Vec::new();
        for bi in 0..bh
            invariant
                self.wf(),
                self.dims_fit(),
                self.downscale >= 1,
                bw == self.width / self.downscale,
                bh == self.height / self.downscale,
                pixels@.len() == bi,
                forall|yy: int| 0 <= yy < bi ==> (#[trigger] pixels@[yy])@.len() == bw,
                forall|yy: int, xx: int|
                    0 <= yy < bi && 0 <= xx < bw ==> (#[trigger] pixels@[yy]@[xx]) == block_pix(
                        *self,
                        self.downscale as int,
                        xx,
                        yy,
                    ),
        {
            let mut row: Vec<Pix> = Vec::new();
            for bj in 0..bw
                invariant
                    self.wf(),
                    self.dims_fit(),
                    self.downscale >= 1,
                    bw == self.width / self.downscale,
                    bh == self.height / self.downscale,
                    bi < bh,
                    row@.len() == bj,
                    forall|xx: int|
                        0 <= xx < bj ==> (#[trigger] row@[xx]) == block_pix(
                            *self,
                            self.downscale as int,
                            xx,
                            bi as int,
                        ),
            {
                let p = self.block_at(bj, bi);
                row.push(p);
            }
            pixels.push(row);
        }
        Image { pixels, height: bh, width: bw, downscale: 1 }
    }
}

} // verus!
