//! A YAML-declared task runner that drives a remote browser session through an
//! ordered sequence of UI interactions and reports structured outcomes.
//!
//! The library owns the task model, its validation pipeline, the variable
//! substitution engine and the session/result state machine.  The actual
//! browser driver, file reading and concurrency live outside the library and
//! communicate with it through plain commands and outcomes.

pub mod cli_argument;
pub mod element;
pub mod executor;
pub mod strutil;
pub mod structs;
pub mod tasks;
pub mod value;
pub mod variables;
pub mod web_driver_session;
