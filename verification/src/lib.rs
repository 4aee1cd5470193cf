//! Core simulation of a two-player paddle-and-ball game: input mapping,
//! motion integration, boundary clamping, collision response, a periodic
//! speed ramp, and score keeping, advanced one frame at a time.
//!
//! All quantities are integers: lengths are held in thousandths of a unit,
//! time in milliseconds, and scalar speeds in units per second (which equals
//! thousandths of a unit per millisecond), so one tick of motion is exact
//! integer arithmetic.

pub mod collision;
pub mod entities;
pub mod frame;
pub mod geometry;
pub mod input;
pub mod missile;
pub mod motion;
pub mod physics;
pub mod ramp;
pub mod scoring;
