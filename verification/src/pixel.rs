//! Pixels and the direction tags they encode.
//!
//! A [`Pix`] carries three colour channels and a grayscale value derived
//! from them at construction. Edge-classification stages communicate a
//! per-pixel direction through a fixed colour encoding; [`Direction`] is
//! the tag and the encoding/decoding tables live here.

use vstd::prelude::*;

verus! {

/// Gradient direction of an edge at a pixel, or `NoEdge` where no edge
/// was detected.
#[derive(Clone, Copy, Debug, PartialEq, Eq, Structural)]
pub enum Direction {
    Horizontal,
    Vertical,
    Forward,
    Backward,
    NoEdge,
}

/// The grayscale channel stored with a pixel: the mean of the three
/// colour channels rounded to the nearest integer.
///
/// For an integer sum `s = r + g + b` the real quotient `s / 3` has
/// fractional part `0`, `1/3` or `2/3`, never `1/2`, so rounding to the
/// nearest integer is exactly the floor of `(s + 1) / 3`.
pub open spec fn gray_spec(r: u8, g: u8, b: u8) -> int {
    (r + g + b + 1) / 3
}

/// A pixel: three 8-bit colour channels and the grayscale value derived
/// from them when the pixel was built.
#[derive(Clone, Copy, Debug, PartialEq, Eq, Structural)]
pub struct Pix {
    pub r: u8,
    pub g: u8,
    pub b: u8,
    pub gray: u8,
}

/// A pixel is well formed when its grayscale channel is the rounded mean
/// of its colour channels.
pub open spec fn pix_wf(p: Pix) -> bool {
    p.gray == gray_spec(p.r, p.g, p.b)
}

/// The well-formed pixel with the given colour channels.
pub open spec fn pix_of(r: u8, g: u8, b: u8) -> Pix {
    Pix { r, g, b, gray: gray_spec(r, g, b) as u8 }
}

/// The colour by which a direction tag travels between pipeline stages.
pub open spec fn direction_color(d: Direction) -> (u8, u8, u8) {
    match d {
        Direction::Vertical => (255u8, 0u8, 0u8),
        Direction::Horizontal => (0u8, 255u8, 0u8),
        Direction::Backward => (255u8, 0u8, 255u8),
        Direction::Forward => (0u8, 255u8, 255u8),
        Direction::NoEdge => (0u8, 0u8, 0u8),
    }
}

/// The pixel that encodes a direction tag: its colour is
/// `direction_color(d)` and its grayscale channel is derived as in any
/// well-formed pixel.
pub open spec fn direction_pix(d: Direction) -> Pix {
    let (r, g, b) = direction_color(d);
    pix_of(r, g, b)
}

/// The direction tag a pixel's colour decodes to: the inverse of
/// `direction_color` on the five canonical colours, and `NoEdge` on any
/// colour outside the table.
pub open spec fn decode_direction(r: u8, g: u8, b: u8) -> Direction {
    if r == 255 {
        if b == 255 {
            Direction::Backward
        } else {
            Direction::Vertical
        }
    } else if g == 255 {
        if b == 255 {
            Direction::Forward
        } else {
            Direction::Horizontal
        }
    } else {
        Direction::NoEdge
    }
}

impl Pix {
    /// Builds a pixel from its colour channels, deriving the grayscale
    /// channel as their rounded mean.
    pub fn new(r: u8, g: u8, b: u8) -> (p: Pix)
        ensures
            p.r == r,
            p.g == g,
            p.b == b,
            p.gray == gray_spec(r, g, b),
            p == pix_of(r, g, b),
            pix_wf(p),
    {
        let sum: u32 = r as u32 + g as u32 + b as u32;
        let gray: u8 = ((sum + 1) / 3) as u8;
        Pix { r, g, b, gray }
    }

    /// Decodes the direction tag carried by this pixel's colour.
    pub fn pix_direction(&self) -> (d: Direction)
        ensures
            d == decode_direction(self.r, self.g, self.b),
    {
        if self.r == 255 {
            if self.b == 255 {
                Direction::Backward
            } else {
                Direction::Vertical
            }
        } else if self.g == 255 {
            if self.b == 255 {
                Direction::Forward
            } else {
                Direction::Horizontal
            }
        } else {
            Direction::NoEdge
        }
    }
}

/// Encodes a direction tag as its carrier pixel.
pub fn direction_pixel(d: Direction) -> (p: Pix)
    ensures
        p == direction_pix(d),
        pix_wf(p),
{
    match d {
        Direction::Vertical => Pix::new(255, 0, 0),
        Direction::Horizontal => Pix::new(0, 255, 0),
        Direction::Backward => Pix::new(255, 0, 255),
        Direction::Forward => Pix::new(0, 255, 255),
        Direction::NoEdge => Pix::new(0, 0, 0),
    }
}

/// Law: decoding the colour that encodes a direction gives back that
/// direction, for every direction tag. The five canonical colours are
/// mutually exclusive, so the encoding loses nothing.
pub proof fn lemma_direction_roundtrip(d: Direction)
    ensures
        decode_direction(
            direction_color(d).0,
            direction_color(d).1,
            direction_color(d).2,
        ) == d,
{
}

} // verus!
