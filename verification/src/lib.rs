//! The chaos game on a pentagon, with exact arithmetic.
//!
//! A single point jumps, frame after frame, halfway toward a randomly chosen
//! vertex of a fixed pentagon; the trail of midpoints draws a fractal.  The
//! pentagon variant adds a restriction: a draw that lands on a circular
//! neighbour of the vertex chosen last is rejected and rolled again.
//!
//! Coordinates are kept as dyadic fixed-point numbers (an integer numerator
//! over a power-of-two denominator), so every midpoint is the exact
//! arithmetic mean of its endpoints.

pub mod geom;
mod rng;
pub mod state;
