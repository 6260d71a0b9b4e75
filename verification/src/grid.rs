//! The rectangular pixel grid every pipeline stage consumes and produces.

use vstd::prelude::*;

use photon_rs::PhotonImage;

use crate::photon::{
    photon_height, photon_height_of, photon_of_raw, photon_raw, photon_raw_of, photon_resize,
    photon_width, photon_width_of,
};
use crate::pixel::{pix_of, pix_wf, Pix};

verus! {

/// The pixel a raw interleaved RGBA buffer of row length `w` holds at
/// column `x` of row `y`: the three colour bytes of its cell, with the
/// grayscale channel derived from them.
pub open spec fn raw_pix(bytes: Seq<u8>, w: int, x: int, y: int) -> Pix {
    pix_of(bytes[4 * (y * w + x)], bytes[4 * (y * w + x) + 1], bytes[4 * (y * w + x) + 2])
}

/// The cell of a raw interleaved RGBA buffer at column `x` of row `y`
/// holds the colour of `img`'s pixel there, with the alpha byte fixed
/// at 255.
pub open spec fn rgba_cell(bytes: Seq<u8>, img: Image, x: int, y: int) -> bool {
    let i = 4 * (y * img.width + x);
    &&& bytes[i] == img.pix_at(x, y).r
    &&& bytes[i + 1] == img.pix_at(x, y).g
    &&& bytes[i + 2] == img.pix_at(x, y).b
    &&& bytes[i + 3] == 255u8
}

/// All cells strictly before row `y`, and the first `x` cells of row
/// `y`, of a raw buffer match `img` (row-major order).
pub open spec fn rgba_upto(bytes: Seq<u8>, img: Image, y: int, x: int) -> bool {
    forall|yy: int, xx: int|
        ((0 <= yy < y && 0 <= xx < img.width) || (yy == y && 0 <= xx < x)) ==> #[trigger] rgba_cell(
            bytes,
            img,
            xx,
            yy,
        )
}

/// A cell's byte index stays inside a `w` by `h` buffer of four bytes
/// per pixel.
proof fn lemma_raw_index(w: int, h: int, x: int, y: int)
    by (nonlinear_arith)
    requires
        0 <= x < w,
        0 <= y < h,
    ensures
        0 <= y * w + x,
        4 * (y * w + x) + 3 < 4 * (w * h),
{
}

/// A rectangular grid of pixels with top-left origin; `(x, y)` addresses
/// column `x` of row `y`. `downscale` is the block side length carried
/// along for the aggregation stage; it says nothing about the pixels.
pub struct Image {
    pub pixels: Vec<Vec<Pix>>,
    pub height: u32,
    pub width: u32,
    pub downscale: u32,
}

impl Image {
    /// The grid invariant: exactly `height` rows of exactly `width`
    /// pixels each, and every pixel's grayscale channel derived from its
    /// colour channels.
    pub open spec fn wf(self) -> bool {
        &&& self.pixels@.len() == self.height
        &&& forall|y: int|
            0 <= y < self.pixels@.len() ==> (#[trigger] self.pixels@[y])@.len() == self.width
        &&& forall|y: int, x: int|
            0 <= y < self.pixels@.len() && 0 <= x < self.pixels@[y]@.len() ==> pix_wf(
                #[trigger] self.pixels@[y]@[x],
            )
    }

    /// Both dimensions fit a signed 32-bit coordinate, the type in which
    /// neighbourhoods around a pixel are addressed.
    pub open spec fn dims_fit(self) -> bool {
        &&& self.width <= i32::MAX
        &&& self.height <= i32::MAX
    }

    /// Whether `(x, y)` addresses a pixel of the grid.
    pub open spec fn in_bounds(self, x: int, y: int) -> bool {
        &&& 0 <= x < self.width
        &&& 0 <= y < self.height
    }

    /// The pixel stored at column `x` of row `y`.
    pub open spec fn pix_at(self, x: int, y: int) -> Pix {
        self.pixels@[y]@[x]
    }

    /// Bounds-checked access: nothing outside the grid, and exactly the
    /// stored pixel inside it.
    pub fn get(&self, x: i32, y: i32) -> (r: Option<&Pix>)
        requires
            self.wf(),
            self.dims_fit(),
        ensures
            r is Some <==> self.in_bounds(x as int, y as int),
            (r matches Some(p) ==> *p == self.pix_at(x as int, y as int)),
    {
        if y >= self.height as i32 || x >= self.width as i32 || x < 0 || y < 0 {
            return None;
        }
        Some(&self.pixels[y as usize][x as usize])
    }

    /// Builds a grid from a decoded raster image: the raw interleaved
    /// RGBA buffer is partitioned into rows of `width` pixels, each
    /// pixel's grayscale channel derived from its colour bytes; the
    /// alpha bytes are dropped. The buffer must hold exactly four bytes
    /// for each of the `width * height` pixels.
    pub fn new(img: &PhotonImage, downscale: u32) -> (res: Image)
        requires
            photon_raw(*img).len() == 4 * photon_width(*img) * photon_height(*img),
        ensures
            res.wf(),
            res.width == photon_width(*img),
            res.height == photon_height(*img),
            res.downscale == downscale,
            forall|x: int, y: int|
                res.in_bounds(x, y) ==> res.pix_at(x, y) == raw_pix(
                    photon_raw(*img),
                    photon_width(*img) as int,
                    x,
                    y,
                ),
    {
        let width = photon_width_of(img);
        let height = photon_height_of(img);
        let raw = photon_raw_of(img);
        let ghost rawg = photon_raw(*img);
        let n: usize = raw.len();
        proof {
            assert(4 * (width as int * height as int) == 4 * width as int * height as int)
                by (nonlinear_arith);
        }

        let mut pixels: Vec<Vec<Pix>> = Vec::new();
        for y in 0..height
            invariant
                raw@ == rawg,
                rawg.len() == n as int,
                rawg.len() == 4 * (width as int * height as int),
                pixels@.len() == y,
                forall|yy: int|
                    0 <= yy < y ==> (#[trigger] pixels@[yy])@.len() == width,
                forall|yy: int, xx: int|
                    0 <= yy < y && 0 <= xx < width ==> (#[trigger] pixels@[yy]@[xx]) == raw_pix(
                        rawg,
                        width as int,
                        xx,
                        yy,
                    ),
        {
            let mut row: Vec<Pix> = Vec::new();
            for x in 0..width
                invariant
                    raw@ == rawg,
                    rawg.len() == n as int,
                    rawg.len() == 4 * (width as int * height as int),
                    y < height,
                    row@.len() == x,
                    forall|xx: int|
                        0 <= xx < x ==> (#[trigger] row@[xx]) == raw_pix(
                            rawg,
                            width as int,
                            xx,
                            y as int,
                        ),
            {
                proof {
                    lemma_raw_index(width as int, height as int, x as int, y as int);
                }
                let i: usize = (y as usize * width as usize + x as usize) * 4;
                let pix = Pix::new(raw[i], raw[i + 1], raw[i + 2]);
                row.push(pix);
            }
            pixels.push(row);
        }

        Image { pixels, height, width, downscale }
    }

    /// Flattens the grid back to a raster image: row-major interleaved
    /// RGBA bytes with the alpha byte fixed at 255, handed to the image
    /// library as a fresh photon image of the same dimensions.
    pub fn to_photon(&self) -> (r: PhotonImage)
        requires
            self.wf(),
        ensures
            photon_width(r) == self.width,
            photon_height(r) == self.height,
            photon_raw(r).len() == 4 * self.width * self.height,
            forall|x: int, y: int|
                self.in_bounds(x, y) ==> #[trigger] rgba_cell(photon_raw(r), *self, x, y),
    {
        let mut bytes: Vec<u8> = Vec::new();
        for y in 0..self.height
            invariant
                self.wf(),
                bytes@.len() == 4 * (y * self.width + 0),
                rgba_upto(bytes@, *self, y as int, 0),
        {
            for x in 0..self.width
                invariant
                    self.wf(),
                    y < self.height,
                    bytes@.len() == 4 * (y * self.width + x),
                    rgba_upto(bytes@, *self, y as int, x as int),
            {
                let ghost prev = bytes@;
                let pix = &self.pixels[y as usize][x as usize];
                bytes.push(pix.r);
                bytes.push(pix.g);
                bytes.push(pix.b);
                bytes.push(255);
                proof {
                    let w = self.width as int;
                    let xi = x as int;
                    let yi = y as int;
                    assert(bytes@ =~= prev + seq![
                        self.pix_at(xi, yi).r,
                        self.pix_at(xi, yi).g,
                        self.pix_at(xi, yi).b,
                        255u8,
                    ]);
                    assert(rgba_cell(bytes@, *self, xi, yi));
                    assert forall|yy: int, xx: int|
                        ((0 <= yy < yi && 0 <= xx < w) || (yy == yi && 0 <= xx
                            < xi)) implies #[trigger] rgba_cell(bytes@, *self, xx, yy) by {
                        assert(rgba_cell(prev, *self, xx, yy));
                        assert(4 * (yy * w + xx) + 3 < 4 * (yi * w + xi)) by (nonlinear_arith)
                            requires
                                0 <= xx < w,
                                0 <= yy,
                                0 <= xi,
                                yy < yi || (yy == yi && xx < xi),
                        ;
                    }
                    assert(rgba_upto(bytes@, *self, yi, xi + 1));
                }
            }
            proof {
                let w = self.width as int;
                let yi = y as int;
                assert(4 * ((yi + 1) * w + 0) == 4 * (yi * w + w)) by (nonlinear_arith);
            }
        }
        proof {
            assert(4 * (self.height as int * self.width as int + 0) == 4 * self.width as int
                * self.height as int) by (nonlinear_arith);
        }
        photon_of_raw(bytes, self.width, self.height)
    }

    /// Shrinks the grid by its `downscale` factor through the image
    /// library's nearest-neighbour resampling. Which source pixels the
    /// resampling picks is the collaborator's affair; the result is a
    /// well-formed grid of the reduced dimensions with `downscale` reset
    /// to 1.
    pub fn resize(&self) -> (res: Image)
        requires
            self.wf(),
            self.downscale >= 1,
            self.width / self.downscale >= 1,
            self.height / self.downscale >= 1,
        ensures
            res.wf(),
            res.width == self.width / self.downscale,
            res.height == self.height / self.downscale,
            res.downscale == 1,
    {
        let p = self.to_photon();
        let small = photon_resize(&p, self.width / self.downscale, self.height / self.downscale);
        Image::new(&small, 1)
    }
}

} // verus!
