//! Edge-map extraction and ASCII rendering for raster images.
//!
//! A raster image is held as a rectangular grid of pixels. The pipeline
//! enhances edges by difference of Gaussians, classifies each pixel's
//! gradient direction with the Sobel operator, pools the classification
//! into coarse blocks by majority vote, and renders the blocks as text.

pub mod aggregate;
pub mod ascii;
pub mod enhance;
pub mod grid;
pub mod photon;
pub mod pixel;
pub mod sobel;

pub use grid::Image;
pub use pixel::Direction;
pub use pixel::Pix;
