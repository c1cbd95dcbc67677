//! Decision logic of an auto-clicker / key-holder: the engine that drives
//! timed clicks, key taps, latched holds and macro playback, the hotkey
//! encoding, macro recording and the small configuration rules around them.
//! Everything that touches the operating system (input injection, hooks,
//! timers, files) is performed by a driver outside this crate; the functions
//! here decide what to do and hand back plain values describing it.

pub mod app;
pub mod autostart;
pub mod config;
pub mod engine;
pub mod hooks;
pub mod text;
pub mod ui;
pub mod util;
