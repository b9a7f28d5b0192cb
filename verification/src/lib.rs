//! Core of a terminal Pomodoro timer: a pause-aware countdown timer, the
//! Pomodoro/short-break/long-break cycle state machine, settings validation,
//! input-field editing, and a task list. The terminal front end samples the
//! clock and forwards key presses; everything it hands in arrives as plain
//! values, so the whole core is verified.
pub mod app;
pub mod cycle;
pub mod digits;
pub mod input;
pub mod parse;
pub mod settings;
pub mod task_list;
pub mod timer;
