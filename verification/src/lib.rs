//! An interactive 3D globe: a subdivided icosphere mesh, orbit-style camera
//! math, and a checked lifecycle for GPU resources.
//!
//! The library is the backend-independent core. Geometry and camera
//! transforms work on fixed-point scalars (see [`fixed`]); the decisions of
//! the GPU resource lifecycle (compile, link, bind, upload, release) are
//! expressed as state machines and plan values that a thin runner executes
//! against a real graphics context.

pub mod fixed;
pub mod icosphere;
pub mod matrix;
pub mod gl_wrap;
pub mod globe;
pub mod mouse;
pub mod points;
pub mod vis;
