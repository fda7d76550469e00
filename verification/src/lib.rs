//! Core simulation of a three-lane dodging game: a deterministic,
//! multi-rate scheduler that advances player input, obstacle motion,
//! recycling, collision resolution, scoring and difficulty scaling at
//! fixed cadences, gated by a coarse menu/playing state.
//!
//! All spatial quantities are integers in half-tile units; all time
//! quantities are integers in milliseconds, with rate factors held as
//! fixed-point hundredths. Rendering, audio and input polling are left
//! to a presentation layer that exchanges plain values with this crate.

pub mod entities;
pub mod gate;
pub mod spawner;
pub mod state;
pub mod systems;
pub mod tile_screen;
pub mod world;
