//! Verified core of an animated night-sky simulation.
//!
//! The library owns the whole particle model: star and meteor state, the
//! per-frame physics step, viewport resizing with density-preserving
//! backfill, and the construction of the flat vertex buffers that a
//! renderer uploads each frame.  All quantities are fixed-point integers
//! (micro-units, see [`fixed::SCALE`]); the unverified host converts them
//! to the float format its graphics API wants.

pub mod field;
pub mod fixed;
pub mod geometry;
pub mod particle;
pub mod rng;
pub mod sample;

