//! Core logic of a keyboard-toggled auto clicker.
//!
//! The crate models the two loops of the clicker as pure, verified
//! functions: the event loop is a debounced toggle/quit state machine
//! (`engine`), the click loop plans a burst of press/release actions per
//! tick (`engine`), hotkey binding strings are parsed by `hotkey`, and
//! configuration defaults are merged by `config`. Registering hotkeys with
//! the operating system and injecting mouse input are left to the
//! surrounding program, which drives these functions.

pub mod button;
pub mod config;
pub mod engine;
pub mod hotkey;
