//! Difference-of-Gaussian edge enhancement.
//!
//! Subtracting a heavily blurred copy of an image from a lightly blurred
//! one isolates fine detail; thresholding the difference suppresses
//! low-amplitude noise into a binary mask.

use vstd::prelude::*;

use crate::grid::Image;
use crate::photon::photon_blur;
use crate::pixel::{gray_spec, pix_of, Pix};

verus! {

/// The edge-detail threshold the pipeline's enhancement stage uses.
pub const DOG_THRESHOLD: u8 = 6;

/// Saturating channel difference: floored at zero, never wrapping.
pub open spec fn sat_sub(a: u8, b: u8) -> u8 {
    if a >= b {
        (a - b) as u8
    } else {
        0u8
    }
}

/// The enhanced pixel for one cell: each channel of the heavily blurred
/// pixel is subtracted, saturating at zero, from the lightly blurred
/// one; the output is pure white where the rounded mean of the three
/// differences exceeds the threshold, else pure black.
pub open spec fn enhance_pix(small: Pix, big: Pix, threshold: u8) -> Pix {
    let dr = sat_sub(small.r, big.r);
    let dg = sat_sub(small.g, big.g);
    let db = sat_sub(small.b, big.b);
    if gray_spec(dr, dg, db) > threshold {
        pix_of(255, 255, 255)
    } else {
        pix_of(0, 0, 0)
    }
}

impl Image {
    /// The thresholding half of the difference-of-Gaussian stage:
    /// combines two equally sized blurred variants of a grid pixel by
    /// pixel into a binary edge mask. Every output pixel is monochrome
    /// and holds either 0 or 255 in each colour channel.
    pub fn enhance(small: &Image, big: &Image, threshold: u8) -> (res: Image)
        requires
            small.wf(),
            big.wf(),
            small.width == big.width,
            small.height == big.height,
        ensures
            res.wf(),
            res.width == small.width,
            res.height == small.height,
            res.downscale == small.downscale,
            forall|x: int, y: int|
                res.in_bounds(x, y) ==> #[trigger] res.pix_at(x, y) == enhance_pix(
                    small.pix_at(x, y),
                    big.pix_at(x, y),
                    threshold,
                ),
            forall|x: int, y: int|
                res.in_bounds(x, y) ==> {
                    let p = #[trigger] res.pix_at(x, y);
                    p.r == p.g && p.g == p.b && (p.r == 0 || p.r == 255)
                },
    {
        let mut pixels: Vec<Vec<Pix>> = Vec::new();
        for y in 0..small.height
            invariant
                small.wf(),
                big.wf(),
                small.width == big.width,
                small.height == big.height,
                pixels@.len() == y,
                forall|yy: int| 0 <= yy < y ==> (#[trigger] pixels@[yy])@.len() == small.width,
                forall|yy: int, xx: int|
                    0 <= yy < y && 0 <= xx < small.width ==> (#[trigger] pixels@[yy]@[xx])
                        == enhance_pix(small.pix_at(xx, yy), big.pix_at(xx, yy), threshold),
        {
            let mut row: Vec<Pix> = Vec::new();
            for x in 0..small.width
                invariant
                    small.wf(),
                    big.wf(),
                    small.width == big.width,
                    small.height == big.height,
                    y < small.height,
                    row@.len() == x,
                    forall|xx: int|
                        0 <= xx < x ==> (#[trigger] row@[xx]) == enhance_pix(
                            small.pix_at(xx, y as int),
                            big.pix_at(xx, y as int),
                            threshold,
                        ),
            {
                let sp = &small.pixels[y as usize][x as usize];
                let bp = &big.pixels[y as usize][x as usize];
                let dr: u8 = if sp.r >= bp.r {
                    sp.r - bp.r
                } else {
                    0
                };
                let dg: u8 = if sp.g >= bp.g {
                    sp.g - bp.g
                } else {
                    0
                };
                let db: u8 = if sp.b >= bp.b {
                    sp.b - bp.b
                } else {
                    0
                };
                let sum: u32 = dr as u32 + dg as u32 + db as u32;
                let avg: u8 = ((sum + 1) / 3) as u8;
                let v: u8 = if avg > threshold {
                    255
                } else {
                    0
                };
                row.push(Pix::new(v, v, v));
            }
            pixels.push(row);
        }
        Image {
            pixels,
            height: small.height,
            width: small.width,
            downscale: small.downscale,
        }
    }

    /// Difference-of-Gaussian enhancement: blurs the grid twice through
    /// the image library, lightly with `sigma` and heavily with
    /// `deviation`, and thresholds the channel differences into a
    /// binary edge mask of the same dimensions. What the blurred pixels
    /// are is the collaborator's affair; whatever they are, every output
    /// pixel is monochrome with channels 0 or 255.
    pub fn diff_gaussian(&self, sigma: i32, deviation: i32) -> (res: Image)
        requires
            self.wf(),
            sigma >= 0,
            deviation >= 0,
            2 <= self.width,
            2 <= self.height,
            self.width * self.height < 0x4000_0000,
        ensures
            res.wf(),
            res.width == self.width,
            res.height == self.height,
            res.downscale == self.downscale,
            forall|x: int, y: int|
                res.in_bounds(x, y) ==> {
                    let p = #[trigger] res.pix_at(x, y);
                    p.r == p.g && p.g == p.b && (p.r == 0 || p.r == 255)
                },
    {
        let mut big_blur = self.to_photon();
        let mut small_blur = self.to_photon();
        photon_blur(&mut big_blur, deviation);
        photon_blur(&mut small_blur, sigma);

        let big_img = Image::new(&big_blur, self.downscale);
        let small_img = Image::new(&small_blur, self.downscale);

        Image::enhance(&small_img, &big_img, DOG_THRESHOLD)
    }
}

} // verus!
