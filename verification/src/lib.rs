//! Core of a Monte Carlo path tracer.
//!
//! The renderer estimates per-pixel radiance by stochastically tracing light
//! paths through a scene of geometric surfaces.  This crate holds the discrete
//! heart of that process: the raster layout and its byte encoding, the
//! portable-pixmap framing of the finished image, the closest-hit selection
//! over an aggregate of surfaces, the bin placement of the spectral color
//! table, and the terminal/transition rules of the recursive radiance
//! estimator.  The numeric kernel around it (vector algebra, intersection
//! roots, sampling densities) works in floating point and lives with the
//! binary that drives the render.

pub mod cie;
pub mod demo;
pub mod integrator;
pub mod objects;
pub mod ppm;
pub mod raster;
pub mod render;
