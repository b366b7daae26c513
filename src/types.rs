//! Common data types for the venue's API: currencies, instrument kinds, order
//! enumerations and the generic response wrapper.
use vstd::prelude::*;

verus! {

/// Currency type
#[derive(Clone, PartialEq, Eq, Structural, Hash, Debug)]
pub enum Currency {
    Bitcoin,
    Ethereum,
    Solana,
    UsdCoin,
    Tether,
}

/// Instrument kind
#[derive(Clone, PartialEq, Eq, Structural, Debug)]
pub enum InstrumentKind {
    Future,
    Option,
    Spot,
    FutureCombo,
    OptionCombo,
}

/// Order side
#[derive(Clone, PartialEq, Eq, Structural, Debug)]
pub enum OrderSide {
    Buy,
    Sell,
}

/// Order type
#[derive(Clone, PartialEq, Eq, Structural, Debug)]
pub enum OrderType {
    Limit,
    Market,
    StopLimit,
    StopMarket,
    TrailingStop,
}

/// Order state
#[derive(Clone, PartialEq, Eq, Structural, Debug)]
pub enum OrderState {
    Open,
    Filled,
    Rejected,
    Cancelled,
    Untriggered,
    Triggered,
}

/// Time in force
#[derive(Clone, PartialEq, Eq, Structural, Debug)]
pub enum TimeInForce {
    GoodTillCancelled,
    GoodTillDay,
    FillOrKill,
    ImmediateOrCancel,
}

/// Generic API response wrapper
#[derive(Clone, Debug)]
pub struct ApiResponse<T> {
    pub jsonrpc: String,
    pub id: Option<serde_json::Value>,
    pub result: Option<T>,
    pub error: Option<ApiError>,
}

/// API error structure
#[derive(Clone, Debug)]
pub struct ApiError {
    pub code: i32,
    pub message: String,
    pub data: Option<serde_json::Value>,
}

} // verus!
