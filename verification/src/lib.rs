//! Core rules of a small 2D arcade shooter: a steerable ship fires bullets at
//! drifting asteroids on a wrapping screen.
//!
//! All geometry is held in fixed-point integers: coordinates and speeds in
//! thousandths of a pixel, angles in units of 1/16000 of a full turn, and
//! sine/cosine samples scaled by 1000. The trigonometric samples themselves
//! are supplied by the caller, so every rule of the game stays in verified
//! integer arithmetic.

pub mod astroid;
pub mod bullet;
pub mod player;
mod rng;
pub mod units;
pub mod world;
