//! A terminal wireframe-cube renderer, verified.
//!
//! The whole transform-and-projection pipeline works on fixed-point
//! integers: a coordinate of `1.0` is stored as [`fixed::SCALE`] units.
//! Trigonometric values are computed by the (unverified) front end and
//! handed in as fixed-point pairs; everything from there to the list of
//! screen cells to paint is verified.

pub mod cli;
pub mod cube;
pub mod fixed;
pub mod glyph;
pub mod input;
pub mod projection;
pub mod raster;
pub mod rotation;
pub mod terminal;
pub mod timing;
