//! A step host for the Cucumber wire protocol.
//!
//! The crate keeps a catalogue of step definitions indexed by regular
//! expression, converts wire arguments into typed values, and turns decoded
//! requests into responses ready to be written back to the driver.

/// Requests and responses exchanged with the driver.
pub mod event;

/// Decimal rendering and reading of step ids and offsets.
pub mod decimal;

/// Helpers for regular expressions.
pub mod cucumber_regex;

/// Short names for step definition files.
pub mod helpers;

/// The catalogue of step definitions and the matcher.
pub mod state;

/// Conversion of wire arguments into typed values, and step registration.
pub mod definitions;

/// Requests turned into state changes, step calls and responses.
pub mod runner;

/// The line protocol spoken with one connected driver.
pub mod server;

pub use definitions::registration::CucumberRegistrar;
pub use event::request::InvokeArgument;
pub use event::response::InvokeResponse;
pub use runner::{CommandRunner, WorldRunner};
pub use server::Server;
pub use state::{Cucumber, SendableStep};
