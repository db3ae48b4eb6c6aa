//! The decisions of a path-tracing renderer of spheres, verified: which
//! root of a ray-sphere quadratic is hit, how a surface normal faces the ray,
//! which scene member is nearest, whether a material scatters or absorbs,
//! how a ray's shading proceeds with its bounce budget, and the plain-text
//! PPM stream the image is written as. Numbers enter as order keys of
//! doubles (`scalar`), so each comparison means what it means on the doubles.

pub mod geometry;
pub mod integrator;
pub mod material;
pub mod ppm;
pub mod scalar;
pub mod scene;
