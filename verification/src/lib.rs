//! A simulator of a romantic relationship: three actors take turns nudging
//! a shared health score, which is kept within `0..=100`.
//!
//! `simulator` holds the threaded simulation, in which the actors act at
//! random moments until health reaches zero; `board` holds the decisions of
//! the firmware that plays the same game on a microcontroller with LEDs and
//! a button; `logger` holds the logger that reports the game.

pub mod board;
pub mod health;
pub mod logger;
pub mod simulator;
pub mod text;

mod chance;

pub use logger::{init, Logger};
