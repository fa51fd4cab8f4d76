//! A ray-casting renderer with single-bounce direct illumination.
//!
//! All geometry and shading is computed in fixed-point arithmetic: a scalar
//! is an `i128` holding the real value times [`scalar::SCALE`]. Every
//! arithmetic step is specified exactly over that representation, so the
//! whole pipeline, from vector algebra to the per-pixel render loop, carries
//! machine-checked contracts.

pub mod camera;
pub mod canvas;
pub mod intersections;
pub mod lights;
pub mod materials;
pub mod matrices;
pub mod patterns;
pub mod rays;
pub mod scalar;
pub mod shapes;
pub mod transformations;
pub mod tuples;
pub mod world;
