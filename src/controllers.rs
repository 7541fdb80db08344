//! Support for the controllers built on a connection.
pub mod error;
