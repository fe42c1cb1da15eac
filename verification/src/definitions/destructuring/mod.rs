//! Conversion of the arguments of an invocation into the typed values a step
//! body works with: one argument at a time, or a whole list into a tuple.

/// Conversion of one argument.
pub mod invoke_arg;

/// Conversion of an argument list into a tuple.
pub mod invoke_arg_set;

pub use self::invoke_arg::{Destructurable, FromInvokeArg};
pub use self::invoke_arg_set::{DestructurableSet, FromInvokeArgSet, InvokeArgSetError};
