//! Sobel gradient computation with 4-way directional classification.
//!
//! For each pixel the two fixed 3-by-3 Sobel kernels are applied to the
//! grayscale channel of its neighbourhood, with out-of-grid neighbours
//! clamped to the centre pixel's own value. The gradient `(h, v)` is
//! classified by the angle `theta = atan2(v, h)`: writing `t` for
//! `|theta| / pi`, the buckets are
//!
//! - `t` in `[0, 0.1)` or `(0.9, 1]`: vertical edge,
//! - `t` in `(0.4, 0.6)`: horizontal edge,
//! - `t` in `(0.1, 0.4)`: backward diagonal for `theta >= 0`, else forward,
//! - `t` in `(0.6, 0.9)`: forward diagonal for `theta >= 0`, else backward.
//!
//! All bucket boundaries are multiples of the angle `pi / 10`, so each
//! test compares `|v|` or `|h|` against the other component scaled by
//! `tan(pi / 10)`, and that comparison is carried out exactly in integer
//! arithmetic (see [`below_tan18`]); for an integer gradient the angle
//! never falls on a bucket boundary. A gradient whose rounded magnitude
//! `sqrt(h * h + v * v)` is 100 or less is discarded as no edge.

use vstd::math::abs;
use vstd::prelude::*;

use crate::grid::Image;
use crate::pixel::{direction_pix, direction_pixel, Direction, Pix};

verus! {

/// Whether `a < b * tan(18 degrees)`, for `a, b >= 0`, decided exactly
/// in integer arithmetic.
///
/// `tan 18` is about 0.3249, and `tan^2 18 == (5 - 2 * sqrt(5)) / 5`.
/// For `a < b`, squaring the comparison and clearing `sqrt(5)` turns
/// `a^2 < b^2 * tan^2 18` into `4 * b^4 < 5 * (b^2 - a^2)^2`; equality
/// of the two sides would make `sqrt(5)` rational, so it never holds for
/// `b >= 1`. For `a >= b` the bound fails, since `tan 18 < 1`.
pub open spec fn below_tan18(a: int, b: int) -> bool {
    a < b && 4 * ((b * b) * (b * b)) < 5 * ((b * b - a * a) * (b * b - a * a))
}

/// The grayscale value the kernels read at `(x, y)`: the pixel's own
/// where it exists, else the centre pixel's (clamp-to-edge, which avoids
/// spurious gradients at the borders).
pub open spec fn gray_cl(img: Image, x: int, y: int, cx: int, cy: int) -> int {
    if img.in_bounds(x, y) {
        img.pix_at(x, y).gray as int
    } else {
        img.pix_at(cx, cy).gray as int
    }
}

/// The horizontal Sobel kernel `[[-1, 0, 1], [-2, 0, 2], [-1, 0, 1]]`
/// applied at `(x, y)`.
pub open spec fn sobel_h(img: Image, x: int, y: int) -> int {
    -gray_cl(img, x - 1, y - 1, x, y) + gray_cl(img, x + 1, y - 1, x, y) - 2 * gray_cl(
        img,
        x - 1,
        y,
        x,
        y,
    ) + 2 * gray_cl(img, x + 1, y, x, y) - gray_cl(img, x - 1, y + 1, x, y) + gray_cl(
        img,
        x + 1,
        y + 1,
        x,
        y,
    )
}

/// The vertical Sobel kernel `[[1, 2, 1], [0, 0, 0], [-1, -2, -1]]`
/// applied at `(x, y)`.
pub open spec fn sobel_v(img: Image, x: int, y: int) -> int {
    gray_cl(img, x - 1, y - 1, x, y) + 2 * gray_cl(img, x, y - 1, x, y) + gray_cl(
        img,
        x + 1,
        y - 1,
        x,
        y,
    ) - gray_cl(img, x - 1, y + 1, x, y) - 2 * gray_cl(img, x, y + 1, x, y) - gray_cl(
        img,
        x + 1,
        y + 1,
        x,
        y,
    )
}

/// Whether the gradient's rounded magnitude exceeds 100. The magnitude
/// is `sqrt(h^2 + v^2)` rounded to the nearest integer, so for integers
/// this is exactly `h^2 + v^2 > 10100`, since `100.5^2 == 10100.25`.
pub open spec fn strong_gradient(h: int, v: int) -> bool {
    h * h + v * v > 10100
}

/// The direction bucket of the gradient angle `atan2(v, h)`, by the
/// sector tests of the module description. `|atan2(v, h)|` equals
/// `atan2(|v|, h)`, so the two vertical buckets together say that the
/// gradient lies within 18 degrees of the horizontal axis, the
/// horizontal bucket that it lies within 18 degrees of the vertical
/// axis, and the remaining sectors are diagonal, told apart by the signs
/// of `h` and `v`. A zero gradient has angle 0, a vertical bucket.
pub open spec fn classify(h: int, v: int) -> Direction {
    if below_tan18(abs(v) as int, abs(h) as int) {
        Direction::Vertical
    } else if below_tan18(abs(h) as int, abs(v) as int) {
        Direction::Horizontal
    } else if h > 0 {
        if v >= 0 {
            Direction::Backward
        } else {
            Direction::Forward
        }
    } else if h < 0 {
        if v >= 0 {
            Direction::Forward
        } else {
            Direction::Backward
        }
    } else {
        Direction::Vertical
    }
}

/// The classified pixel at `(x, y)`: the colour encoding of the
/// gradient's direction bucket where the gradient is strong, else the
/// encoding of no edge.
pub open spec fn sobel_pix(img: Image, x: int, y: int) -> Pix {
    if strong_gradient(sobel_h(img, x, y), sobel_v(img, x, y)) {
        direction_pix(classify(sobel_h(img, x, y), sobel_v(img, x, y)))
    } else {
        direction_pix(Direction::NoEdge)
    }
}

/// Decides `below_tan18` on gradient components.
fn below_tan18_exec(a: u64, b: u64) -> (r: bool)
    requires
        a <= 1020,
        b <= 1020,
    ensures
        r == below_tan18(a as int, b as int),
{
    if a >= b {
        false
    } else {
        proof {
            assert(a * a < b * b && b * b <= 1020 * 1020) by (nonlinear_arith)
                requires
                    a < b,
                    b <= 1020,
            ;
        }
        let b2: u64 = b * b;
        let a2: u64 = a * a;
        proof {
            assert(b2 * b2 <= 1040400 * 1040400) by (nonlinear_arith)
                requires
                    b2 <= 1040400,
            ;
            assert((b2 - a2) * (b2 - a2) <= 1040400 * 1040400) by (nonlinear_arith)
                requires
                    a2 < b2 <= 1040400,
            ;
        }
        let d: u64 = b2 - a2;
        4 * (b2 * b2) < 5 * (d * d)
    }
}

/// Classifies a gradient into its direction bucket.
fn classify_exec(h: i32, v: i32) -> (d: Direction)
    requires
        -1020 <= h <= 1020,
        -1020 <= v <= 1020,
    ensures
        d == classify(h as int, v as int),
{
    let ha: u64 = if h >= 0 {
        h as u64
    } else {
        (-h) as u64
    };
    let va: u64 = if v >= 0 {
        v as u64
    } else {
        (-v) as u64
    };
    if below_tan18_exec(va, ha) {
        Direction::Vertical
    } else if below_tan18_exec(ha, va) {
        Direction::Horizontal
    } else if h > 0 {
        if v >= 0 {
            Direction::Backward
        } else {
            Direction::Forward
        }
    } else if h < 0 {
        if v >= 0 {
            Direction::Forward
        } else {
            Direction::Backward
        }
    } else {
        Direction::Vertical
    }
}

impl Image {
    /// The grayscale value the kernels read at `(x, y)`, with `cg` the
    /// centre pixel's own value as the out-of-grid fallback.
    fn gray_at_or(&self, x: i32, y: i32, cg: u8) -> (g: u8)
        requires
            self.wf(),
            self.dims_fit(),
        ensures
            g as int == (if self.in_bounds(x as int, y as int) {
                self.pix_at(x as int, y as int).gray as int
            } else {
                cg as int
            }),
    {
        match self.get(x, y) {
            Some(p) => p.gray,
            None => cg,
        }
    }

    /// Computes the classified pixel at `(x, y)`.
    fn sobel_at(&self, x: u32, y: u32) -> (p: Pix)
        requires
            self.wf(),
            self.dims_fit(),
            x < self.width,
            y < self.height,
        ensures
            p == sobel_pix(*self, x as int, y as int),
    {
        let xi = x as i32;
        let yi = y as i32;
        let cg: u8 = self.pixels[y as usize][x as usize].gray;

        let tl = self.gray_at_or(xi - 1, yi - 1, cg) as i32;
        let tm = self.gray_at_or(xi, yi - 1, cg) as i32;
        let tr = self.gray_at_or(xi + 1, yi - 1, cg) as i32;
        let ml = self.gray_at_or(xi - 1, yi, cg) as i32;
        let mr = self.gray_at_or(xi + 1, yi, cg) as i32;
        let bl = self.gray_at_or(xi - 1, yi + 1, cg) as i32;
        let bm = self.gray_at_or(xi, yi + 1, cg) as i32;
        let br = self.gray_at_or(xi + 1, yi + 1, cg) as i32;

        let hs: i32 = -tl + tr - 2 * ml + 2 * mr - bl + br;
        let vs: i32 = tl + 2 * tm + tr - bl - 2 * bm - br;

        proof {
            assert(0 <= (hs as int) * (hs as int) <= 1020 * 1020) by (nonlinear_arith)
                requires
                    -1020 <= hs as int <= 1020,
            ;
            assert(0 <= (vs as int) * (vs as int) <= 1020 * 1020) by (nonlinear_arith)
                requires
                    -1020 <= vs as int <= 1020,
            ;
        }
        let h2: i64 = (hs as i64) * (hs as i64);
        let v2: i64 = (vs as i64) * (vs as i64);
        let dir = if h2 + v2 > 10100 {
            classify_exec(hs, vs)
        } else {
            Direction::NoEdge
        };
        direction_pixel(dir)
    }

    /// Sobel gradient classification: a fresh grid of the same
    /// dimensions in which every pixel carries the colour encoding of
    /// its gradient's direction bucket, or of no edge where the
    /// gradient is weak.
    pub fn sobel(&self) -> (res: Image)
        requires
            self.wf(),
            self.dims_fit(),
        ensures
            res.wf(),
            res.width == self.width,
            res.height == self.height,
            res.downscale == self.downscale,
            forall|x: int, y: int|
                res.in_bounds(x, y) ==> #[trigger] res.pix_at(x, y) == sobel_pix(*self, x, y),
    {
        let mut pixels: Vec<Vec<Pix>> = Vec::new();
        for y in 0..self.height
            invariant
                self.wf(),
                self.dims_fit(),
                pixels@.len() == y,
                forall|yy: int| 0 <= yy < y ==> (#[trigger] pixels@[yy])@.len() == self.width,
                forall|yy: int, xx: int|
                    0 <= yy < y && 0 <= xx < self.width ==> (#[trigger] pixels@[yy]@[xx])
                        == sobel_pix(*self, xx, yy),
        {
            let mut row: Vec<Pix> = Vec::new();
            for x in 0..self.width
                invariant
                    self.wf(),
                    self.dims_fit(),
                    y < self.height,
                    row@.len() == x,
                    forall|xx: int|
                        0 <= xx < x ==> (#[trigger] row@[xx]) == sobel_pix(*self, xx, y as int),
            {
                let p = self.sobel_at(x, y);
                row.push(p);
            }
            pixels.push(row);
        }
        Image {
            pixels,
            height: self.height,
            width: self.width,
            downscale: self.downscale,
        }
    }
}

/// Law: a grid without local contrast has no gradient. At any pixel of
/// a grid whose grayscale channel is `g` everywhere, both kernel sums
/// are zero, so the magnitude is zero and the classified pixel encodes
/// no edge.
pub proof fn lemma_sobel_uniform(img: Image, g: u8, x: int, y: int)
    requires
        img.wf(),
        forall|xx: int, yy: int|
            img.in_bounds(xx, yy) ==> (#[trigger] img.pix_at(xx, yy)).gray == g,
        img.in_bounds(x, y),
    ensures
        sobel_h(img, x, y) == 0,
        sobel_v(img, x, y) == 0,
        sobel_pix(img, x, y) == direction_pix(Direction::NoEdge),
{
    assert(img.pix_at(x, y).gray == g);
    assert(gray_cl(img, x - 1, y - 1, x, y) == g);
    assert(gray_cl(img, x, y - 1, x, y) == g);
    assert(gray_cl(img, x + 1, y - 1, x, y) == g);
    assert(gray_cl(img, x - 1, y, x, y) == g);
    assert(gray_cl(img, x + 1, y, x, y) == g);
    assert(gray_cl(img, x - 1, y + 1, x, y) == g);
    assert(gray_cl(img, x, y + 1, x, y) == g);
    assert(gray_cl(img, x + 1, y + 1, x, y) == g);
}

} // verus!
