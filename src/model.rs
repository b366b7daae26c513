//! Data models shared by the clients.

/// Client configuration
pub mod config;
/// Instrument kinds and types
pub mod instrument;
/// Order enumerations
pub mod order;
/// Results of order-related transfers and quotes
pub mod order_management;
/// Position direction
pub mod position;
/// Request records
pub mod request;
/// Response records
pub mod response;
/// Settlement events
pub mod settlement;
/// Trade liquidity
pub mod trade;
/// Kinds of account transactions
pub mod transaction;
/// Transfer states and address book entries
pub mod transfer;
