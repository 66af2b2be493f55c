//! The state behind a small real-time demo: a cube that spins on two axes
//! while the arrow keys are held.
//!
//! Everything here is exact integer arithmetic on plain values. Angles are
//! held in thousandths of a degree, time in milliseconds and the virtual
//! viewport as fractions, so that each step of the frame loop has one
//! mathematical result, which the contracts state.

pub mod angle;
pub mod camera;
pub mod input;
pub mod mesh;
pub mod renderer;
pub mod scene;
pub mod timing;
pub mod viewport;
