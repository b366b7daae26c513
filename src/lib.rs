//! Shared building blocks of a client for the Deribit trading venue: the
//! venue's error codes, the one error type that every client operation
//! returns, the conversions that lead from transport signals to it, and the
//! configuration and data records that the clients exchange.

/// Settings and endpoints shared by every client
pub mod common;
/// Endpoints, limits and per-currency values
pub mod constants;
/// Error codes, the error envelope and the conversions between them
pub mod error;
/// Data models shared by the clients
pub mod model;
/// Re-exports of the items most clients use
pub mod prelude;
/// Decimal text of integers and string comparison
pub mod text;
/// Transport helpers: checksums, instrument names, identifiers
pub mod utils;
/// Common data types of the API
pub mod types;
