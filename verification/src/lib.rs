//! The rules of a snake game on a 240x160 sprite display, kept apart from the
//! hardware that shows it: positions and wraparound, the snake and its
//! sprites, the fruit spawner and the frame scheduler.
//!
//! The program around this library polls the pad, draws random numbers and
//! shows sprites; it hands the library plain values and is told what to do
//! next. Each operation has a contract over the values in `model`.

pub mod game;
pub mod grid;
pub mod input;
pub mod model;
pub mod snake;
pub mod sprite;
