//! A pomodoro timer engine: a countdown state machine, daily session
//! statistics with day rollover, user settings, and the completion events
//! that drive sounds and notifications. Persistence goes through a small
//! SQLite-backed store; the wall clock is read in exactly one place and
//! every rule of the engine is stated over an explicit date argument.

pub mod app;
pub mod clock;
pub mod event;
pub mod launch_agent;
pub mod menu;
pub mod models;
pub mod persistence;
pub mod text;
pub mod timer;
