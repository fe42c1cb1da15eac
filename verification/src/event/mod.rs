//! Wire messages: what the driver sends and what the host answers.

/// JSON values and the text they are read from.
pub mod json;

/// Requests made by the driver.
pub mod request;

/// Responses sent back to the driver.
pub mod response;
