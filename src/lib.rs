//! Terrain classification, column caching, cursor targeting and editing for
//! a voxel sandbox. Everything here works on integers; the floating-point
//! noise sampling and the engine wiring live outside this crate.

pub mod args;
pub mod level;
pub mod player;
pub mod voxels;
