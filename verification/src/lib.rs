//! Startup diagnostics and health reporting for the EvolveApp desktop shell.
//!
//! The library holds the rules of the startup sequence: what a diagnostics
//! report contains, how host facts become a report, when start-up is fatal,
//! and what the bridge commands answer. Input and output stay with the caller.

pub mod text;
pub mod host;
pub mod platform;
pub mod diagnostics;
pub mod database;
pub mod sync;
pub mod commands;
pub mod startup;
