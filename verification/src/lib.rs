//! A bootstrap sequencer for an application shell.
//!
//! An application is brought up in a fixed order: capabilities are attached
//! to the application instance one after the other, then the run loop is
//! entered. The host performs each of these actions; this crate decides which
//! action comes next and what a failure means. It performs no action itself.

pub mod capability;
pub mod driver;
pub mod laws;
pub mod plan;
pub mod platform;
pub mod sequencer;

pub use crate::driver::run;
