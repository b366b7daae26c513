//! Request records: cancellation and authentication, and the trigger and
//! advanced order kinds.
use vstd::prelude::*;

verus! {

/// Trigger type for stop orders
#[derive(Clone, PartialEq, Eq, Structural, Debug)]
pub enum TriggerType {
    /// Index price trigger
    IndexPrice,
    /// Mark price trigger
    MarkPrice,
    /// Last price trigger
    LastPrice,
}

/// Advanced order type
#[derive(Clone, PartialEq, Eq, Structural, Debug)]
pub enum AdvancedOrderType {
    /// USD denomination
    Usd,
    /// Implied volatility
    Implv,
}

/// Order cancellation request
#[derive(Clone, Debug)]
pub struct CancelOrderRequest {
    /// Order ID to cancel
    pub order_id: String,
}

/// Cancel all orders request
#[derive(Clone, Debug)]
pub struct CancelAllOrdersRequest {
    /// Currency filter
    pub currency: Option<String>,
    /// Instrument kind filter
    pub kind: Option<String>,
    /// Instrument type filter
    pub instrument_type: Option<String>,
}

/// Authentication request
#[derive(Clone, Debug)]
pub struct AuthRequest {
    /// Grant type
    pub grant_type: String,
    /// Client ID
    pub client_id: String,
    /// Client secret
    pub client_secret: String,
    /// Refresh token (for refresh grant)
    pub refresh_token: Option<String>,
    /// Scope
    pub scope: Option<String>,
}

impl AuthRequest {
    /// Create a client credentials authentication request
    pub fn client_credentials(client_id: String, client_secret: String) -> (r: AuthRequest)
        ensures
            r.grant_type@ == "client_credentials"@,
            r.client_id == client_id,
            r.client_secret == client_secret,
            r.refresh_token is None,
            r.scope is None,
    {
        AuthRequest {
            grant_type: String::from_str("client_credentials"),
            client_id,
            client_secret,
            refresh_token: None,
            scope: None,
        }
    }

    /// Create a refresh token authentication request
    pub fn refresh_token(client_id: String, client_secret: String, refresh_token: String) -> (r:
        AuthRequest)
        ensures
            r.grant_type@ == "refresh_token"@,
            r.client_id == client_id,
            r.client_secret == client_secret,
            r.refresh_token == Some(refresh_token),
            r.scope is None,
    {
        AuthRequest {
            grant_type: String::from_str("refresh_token"),
            client_id,
            client_secret,
            refresh_token: Some(refresh_token),
            scope: None,
        }
    }
}

} // verus!
