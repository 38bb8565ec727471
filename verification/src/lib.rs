//! The logic of a small interactive demo: a menu that opens three toy
//! scenes, each of which can be left for the menu again.
//!
//! The engine that draws, polls the devices and keeps time stays outside.
//! It hands in what was pressed and how long the frame lasted, and gets back
//! what to build, what to remove and what each entity looks like now.
//!
//! Lengths, scale factors and colour channels are in fixed point, and time
//! is in nanoseconds: see [`units`].

pub mod common;
pub mod components;
pub mod constants;
pub mod engine;
pub mod input;
pub mod scenes;
pub mod schedule;
pub mod state;
pub mod timer;
pub mod units;
pub mod world;
