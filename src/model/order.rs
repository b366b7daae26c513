//! Order enumerations: time in force, side, type and status.
use vstd::prelude::*;

verus! {

/// Time in force enumeration
#[derive(Clone, Copy, PartialEq, Eq, Structural, Debug)]
pub enum TimeInForce {
    /// Order remains active until explicitly cancelled
    GoodTilCancelled,
    /// Order expires at the end of the trading day
    GoodTilDay,
    /// Order must be filled immediately and completely or cancelled
    FillOrKill,
    /// Order must be filled immediately, partial fills allowed, remaining cancelled
    ImmediateOrCancel,
}

impl TimeInForce {
    /// The venue's name for this time in force.
    pub open spec fn spec_str(self) -> Seq<char> {
        match self {
            TimeInForce::GoodTilCancelled => "good_til_cancelled"@,
            TimeInForce::GoodTilDay => "good_til_day"@,
            TimeInForce::FillOrKill => "fill_or_kill"@,
            TimeInForce::ImmediateOrCancel => "immediate_or_cancel"@,
        }
    }

    /// Returns the string representation of the time in force value
    pub fn as_str(&self) -> (r: &'static str)
        ensures
            r@ == self.spec_str(),
    {
        match self {
            TimeInForce::GoodTilCancelled => "good_til_cancelled",
            TimeInForce::GoodTilDay => "good_til_day",
            TimeInForce::FillOrKill => "fill_or_kill",
            TimeInForce::ImmediateOrCancel => "immediate_or_cancel",
        }
    }
}

/// Order side enumeration
#[derive(Clone, Copy, PartialEq, Eq, Structural, Debug)]
pub enum OrderSide {
    /// Buy order
    Buy,
    /// Sell order
    Sell,
}

/// Order type enum
#[derive(Clone, Copy, PartialEq, Eq, Structural, Debug)]
pub enum OrderType {
    /// Limit order - executes at specified price or better
    Limit,
    /// Market order - executes immediately at best available price
    Market,
    /// Stop limit order - becomes limit order when stop price is reached
    StopLimit,
    /// Stop market order - becomes market order when stop price is reached
    StopMarket,
    /// Take limit order - limit order to take profit
    TakeLimit,
    /// Take market order - market order to take profit
    TakeMarket,
    /// Market limit order - market order with limit price protection
    MarketLimit,
    /// Trailing stop order - stop order that trails the market price
    TrailingStop,
}

impl OrderType {
    /// The venue's name for this order type.
    pub open spec fn spec_str(self) -> Seq<char> {
        match self {
            OrderType::Limit => "limit"@,
            OrderType::Market => "market"@,
            OrderType::StopLimit => "stop_limit"@,
            OrderType::StopMarket => "stop_market"@,
            OrderType::TakeLimit => "take_limit"@,
            OrderType::TakeMarket => "take_market"@,
            OrderType::MarketLimit => "market_limit"@,
            OrderType::TrailingStop => "trailing_stop"@,
        }
    }

    /// Returns the string representation of the order type
    pub fn as_str(&self) -> (r: &'static str)
        ensures
            r@ == self.spec_str(),
    {
        match self {
            OrderType::Limit => "limit",
            OrderType::Market => "market",
            OrderType::StopLimit => "stop_limit",
            OrderType::StopMarket => "stop_market",
            OrderType::TakeLimit => "take_limit",
            OrderType::TakeMarket => "take_market",
            OrderType::MarketLimit => "market_limit",
            OrderType::TrailingStop => "trailing_stop",
        }
    }
}

/// Order status enumeration
#[derive(Clone, Copy, PartialEq, Eq, Structural, Debug)]
pub enum OrderStatus {
    /// Order has been accepted by the system
    New,
    /// Order has been partially filled
    PartiallyFilled,
    /// Order has been completely filled
    Filled,
    /// Order is done for the day
    DoneForDay,
    /// Order has been cancelled
    Canceled,
    /// Order has been replaced
    Replaced,
    /// Order cancellation is pending
    PendingCancel,
    /// Order has been stopped
    Stopped,
    /// Order has been rejected
    Rejected,
    /// Order has been suspended
    Suspended,
    /// Order is pending acceptance
    PendingNew,
    /// Order has been calculated
    Calculated,
    /// Order has expired
    Expired,
    /// Order has been accepted for bidding
    AcceptedForBidding,
    /// Order replacement is pending
    PendingReplace,
}

} // verus!
