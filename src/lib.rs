//! The integer and decision core of a Monte Carlo path tracer for spheres.
//!
//! The floating-point kernel (vector algebra, intersection, material scatter,
//! the camera) runs around this library; what is decided or counted is here:
//! - `lattice`: the exact rejection tests of the unit-sphere and unit-disc samplers;
//! - `random`: draws from the injected generator and single sampler rounds;
//! - `aggregate`: which primitive's hit is the nearest;
//! - `scatter`: the dielectric's choice between reflecting and refracting;
//! - `integrator`: the steps of a camera path and its bounce cap;
//! - `scene`: the layout and draw order of the default procedural scene;
//! - `raster`: the 8-bit output image and the order its pixels are visited.
pub mod aggregate;
pub mod integrator;
pub mod lattice;
pub mod random;
pub mod raster;
pub mod scatter;
pub mod scene;
