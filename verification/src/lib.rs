//! Core of a small vector-graphics arcade shooter: a player ship, a pool of
//! bullets and a population of splitting asteroids, driven by a finite-state
//! game controller.
//!
//! All geometry is fixed-point: lengths are held in thousandths of a pixel
//! and angles in millionths of a radian, so every rule of the game is stated
//! and proved over plain integers. Turning an angle into a heading vector is
//! the host's job; the controller takes headings as already-scaled pairs.
#![allow(non_snake_case)]

pub mod asteroid;
pub mod bullet;
pub mod game;
pub mod rng;
pub mod ship;
pub mod util;
