//! Core library of a small 3-D engine: decoding of scene-interchange
//! assets into engine-ready meshes, materials and node hierarchies,
//! frame-time bookkeeping, and interactive widget state.
//!
//! Geometry and shading parameters are carried as raw 32-bit float bit
//! patterns (`u32`), so that the decoder is a pure transform over plain
//! integers; callers convert to and from `f32` at the boundary.

pub mod assets;
pub mod laws;
pub mod math;
pub mod renderer;
pub mod time;
pub mod ui;

pub use math::{Vec2Bits, Vec3Bits, QuatBits, ColorBits};
