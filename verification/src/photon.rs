//! The boundary to the photon image library.
//!
//! The pipeline's collaborator for decoding, blurring and resampling is
//! `photon_rs`. Its image value is opaque here; three names stand for
//! what such a value holds — its raw interleaved RGBA bytes and its two
//! dimensions — and every call into the library goes through one of the
//! wrappers below, whose contracts say no more than the library's source
//! shows.

use vstd::prelude::*;

use photon_rs::PhotonImage;

verus! {

#[verifier::external_type_specification]
#[verifier::external_body]
pub struct ExPhotonImage(PhotonImage);

/// The raw pixel buffer a photon image holds: row-major interleaved
/// RGBA bytes, as `PhotonImage::get_raw_pixels` returns it.
pub uninterp spec fn photon_raw(img: PhotonImage) -> Seq<u8>;

/// The width a photon image holds, as `PhotonImage::get_width` returns it.
pub uninterp spec fn photon_width(img: PhotonImage) -> u32;

/// The height a photon image holds, as `PhotonImage::get_height` returns it.
pub uninterp spec fn photon_height(img: PhotonImage) -> u32;

/// Relies on `PhotonImage::get_width`, which returns the stored width.
#[verifier::external_body]
pub(crate) fn photon_width_of(img: &PhotonImage) -> (w: u32)
    ensures
        w == photon_width(*img),
{
    img.get_width()
}

/// Relies on `PhotonImage::get_height`, which returns the stored height.
#[verifier::external_body]
pub(crate) fn photon_height_of(img: &PhotonImage) -> (h: u32)
    ensures
        h == photon_height(*img),
{
    img.get_height()
}

/// Relies on `PhotonImage::get_raw_pixels`, which returns a copy of the
/// stored raw buffer.
#[verifier::external_body]
pub(crate) fn photon_raw_of(img: &PhotonImage) -> (v: Vec<u8>)
    ensures
        v@ == photon_raw(*img),
{
    img.get_raw_pixels()
}

/// Relies on `PhotonImage::new`, which stores the given buffer and
/// dimensions unchanged.
#[verifier::external_body]
pub(crate) fn photon_of_raw(bytes: Vec<u8>, width: u32, height: u32) -> (r: PhotonImage)
    ensures
        photon_raw(r) == bytes@,
        photon_width(r) == width,
        photon_height(r) == height,
{
    PhotonImage::new(bytes, width, height)
}

/// Relies on `photon_rs::conv::gaussian_blur`, a box-blur approximation
/// of a Gaussian blur. It rebuilds the raw buffer of the same length and
/// leaves the dimensions unchanged; what the blurred bytes are is not
/// stated. The pixel-count bound keeps the library's own
/// `width * height * 4`, computed in 32 bits, from overflowing; the
/// radius is clamped inside the library to below half of either
/// dimension, which keeps its box radii within one pixel row. So the
/// call can neither overflow nor index out of range.
#[verifier::external_body]
pub(crate) fn photon_blur(img: &mut PhotonImage, radius: i32)
    requires
        radius >= 0,
        2 <= photon_width(*old(img)),
        2 <= photon_height(*old(img)),
        photon_width(*old(img)) * photon_height(*old(img)) < 0x4000_0000,
        photon_raw(*old(img)).len() == 4 * photon_width(*old(img)) * photon_height(*old(img)),
    ensures
        photon_width(*final(img)) == photon_width(*old(img)),
        photon_height(*final(img)) == photon_height(*old(img)),
        photon_raw(*final(img)).len() == photon_raw(*old(img)).len(),
{
    photon_rs::conv::gaussian_blur(img, radius)
}

/// Relies on `photon_rs::transform::resize` with nearest-neighbour
/// sampling: it returns an image of exactly the requested dimensions
/// whose buffer is the resampled pixel data, four bytes per pixel. Which
/// pixels the resampling picks is not stated.
#[verifier::external_body]
pub(crate) fn photon_resize(img: &PhotonImage, width: u32, height: u32) -> (r: PhotonImage)
    requires
        width >= 1,
        height >= 1,
        photon_raw(*img).len() == 4 * photon_width(*img) * photon_height(*img),
    ensures
        photon_width(r) == width,
        photon_height(r) == height,
        photon_raw(r).len() == 4 * width * height,
{
    photon_rs::transform::resize(img, width, height, photon_rs::transform::SamplingFilter::Nearest)
}

} // verus!
