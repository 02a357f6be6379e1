//! Timing core of a terminal clock: a stopwatch, a countdown alarm and a
//! Pomodoro cycler, each written as a step function that a thin driver polls.

pub mod action;
pub mod alarm;
pub mod cancel;
pub mod cli;
pub mod clock;
pub mod color;
pub mod duration;
pub mod format;
pub mod pomodoro;
pub mod render;
pub mod stopwatch;
pub mod text;
