//! Error handling for every client operation: the venue's codes, the error
//! envelope, and the conversions that produce it.

/// The venue's numeric error codes
pub mod codes;
/// Conversions from transport signals to codes and envelopes
pub mod conversions;
/// The error envelope and its rendering
pub mod types;
/// The JSON calls behind the wire format of codes
pub mod wire;
