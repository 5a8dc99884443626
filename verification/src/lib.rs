//! A ping-pong (reflecting) linear-interpolation oscillator.
//!
//! Positions and progress are held in fixed-point units so that every update
//! and every interpolated position is exact: one whole unit of progress is
//! `scaled::SCALE` fixed-point units, and a coordinate of a point is likewise
//! measured in units of `1 / SCALE`.
//!
//! An [`oscillator::Oscillator`] advances its progress by a signed step once
//! per tick and reverses direction whenever the advanced progress leaves
//! `[0, SCALE]` in the direction of travel, sweeping back and forth along a
//! fixed line segment forever.

pub mod oscillator;
pub mod scaled;
pub mod vec3;
