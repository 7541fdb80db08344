//! A blocking convenience layer over the PulseAudio client bindings. The library holds the
//! decisions of that layer: how each state that a polling wait observes settles the wait,
//! which error a failed wait ends in, and the order in which a connection is released.
pub mod controllers;
pub mod error;
pub mod state;
pub mod teardown;

pub use crate::controllers::error::ControllerError;
pub use crate::error::Error;
