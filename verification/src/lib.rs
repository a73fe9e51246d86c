//! State, key bindings and scroll arithmetic of a terminal dashboard that
//! lists installed packages and follows a running upgrade.
//!
//! The crate holds the decisions only. Reading the terminal, spawning the
//! package manager and drawing are left to the program around it, which hands
//! in plain values and performs the actions that come back.

pub mod app;
pub mod event_loop;
pub mod homebrew;
pub mod keyboard_events;
pub mod scroll;
pub mod ui;
