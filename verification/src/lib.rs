//! Ghosted: a job application tracker.
//!
//! The library holds the tracker's state machine and its data model; the
//! terminal front end (rendering, key reading, storage) drives it.
pub mod app;
pub mod calendar;
pub mod cli;
pub mod laws;
pub mod models;
pub mod presentation;
pub mod state;
