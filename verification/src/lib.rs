//! Brightness-control library: discovery of brightness devices from the
//! contents of their value files, clamped updates, a line-oriented console
//! mode, and a full-screen dashboard state machine.
//!
//! All file and terminal input/output lives outside this crate; the library
//! works on plain values (paths as strings, file contents, key events) and
//! states in its contracts exactly what it computes.

pub mod console;
pub mod controller;
pub mod dashboard;
pub mod utils;
