//! Step registration and the conversion of wire arguments into typed values.

/// Conversion of wire arguments into typed values.
pub mod destructuring;

/// Registration of step definitions.
pub mod registration;

/// Steps whose body takes its arguments as a typed tuple.
pub mod typed;
