//! Verified core of a stochastic path tracer: the pixel grid that the render
//! driver walks, the seeds of the per-sample random streams, nearest-hit
//! resolution over a scene, the depth control of the radiance estimator, the
//! scattering decisions of the materials and the RGBA8 frame buffer.
//!
//! Vector and colour arithmetic is floating point and lives with the program
//! that drives this library.

pub mod grid;
pub mod image;
pub mod integrator;
pub mod material;
pub mod parser;
pub mod sampling;
pub mod scene;
