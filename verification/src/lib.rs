//! Simulation core of a fixed-timestep 2D arcade shooter.
//!
//! The crate covers the parts of the engine that are pure computation: the
//! axis-aligned rectangle algebra, the animated-sprite timing model, the
//! bullet/asteroid/explosion entity behaviors, the player movement and cannon
//! logic, the per-frame collision-and-cull pass, the parallax background
//! layout, the input edge tracking, and the frame-loop timing decisions.
//!
//! All quantities are fixed-point `i64` values in micro-units (see `fixed`).
//! Windowing, texture loading and blitting are left to the host: the library
//! hands it plain rectangles, sprite regions and frame indices to draw.
pub mod fixed;

pub mod data;

pub mod gfx;

pub mod events;

pub mod shared;

pub mod engine;

pub mod bullets;

pub mod player;

pub mod rng;

pub mod game;

pub mod views;

