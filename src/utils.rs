//! Helpers for the FIX and JSON-RPC transports.

/// FIX checksums, instrument names and identifiers
pub mod tools;
