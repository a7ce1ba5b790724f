//! A two-paddle ball game: the per-tick simulation of paddles, ball,
//! collisions, scoring and the end of a match.
//!
//! All lengths are in fixed-point sub-pixel units (`UNITS_PER_PIXEL` units
//! make one pixel), so that every rule is exact integer arithmetic.

pub mod config;
pub mod geometry;
pub mod entity;
pub mod game;
pub mod laws;
