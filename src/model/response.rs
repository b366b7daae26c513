//! Response records: the JSON-RPC wrapper and its error, pagination,
//! notifications, and the small replies of the public methods.
use vstd::prelude::*;
use crate::model::order_management::QuoteResult;
use crate::model::settlement::Settlement;

verus! {

/// Generic JSON-RPC 2.0 response wrapper
#[derive(Clone, Debug)]
pub struct JsonRpcResponse<T> {
    /// JSON-RPC version
    pub jsonrpc: String,
    /// Request ID
    pub id: Option<serde_json::Value>,
    /// Result data (present on success)
    pub result: Option<T>,
    /// Error information (present on error)
    pub error: Option<JsonRpcError>,
    /// Test net flag
    pub testnet: Option<bool>,
    /// Use server time
    pub us_in: Option<i64>,
    /// Use out time
    pub us_out: Option<i64>,
    /// Use diff time
    pub us_diff: Option<i64>,
}

/// The text of the error that a response with neither result nor error yields.
pub open spec fn missing_outcome_message() -> Seq<char> {
    "Internal error: neither result nor error present"@
}

impl<T> JsonRpcResponse<T> {
    /// A response as built by the library: version "2.0" and no timing fields.
    pub open spec fn built(self, id: Option<serde_json::Value>) -> bool {
        &&& self.jsonrpc@ == "2.0"@
        &&& self.id == id
        &&& self.testnet is None
        &&& self.us_in is None
        &&& self.us_out is None
        &&& self.us_diff is None
    }

    /// Create a successful response
    pub fn success(id: Option<serde_json::Value>, result: T) -> (r: JsonRpcResponse<T>)
        ensures
            r.built(id),
            r.result == Some(result),
            r.error is None,
    {
        JsonRpcResponse {
            jsonrpc: String::from_str("2.0"),
            id,
            result: Some(result),
            error: None,
            testnet: None,
            us_in: None,
            us_out: None,
            us_diff: None,
        }
    }

    /// Create an error response
    pub fn error(id: Option<serde_json::Value>, error: JsonRpcError) -> (r: JsonRpcResponse<T>)
        ensures
            r.built(id),
            r.result is None,
            r.error == Some(error),
    {
        JsonRpcResponse {
            jsonrpc: String::from_str("2.0"),
            id,
            result: None,
            error: Some(error),
            testnet: None,
            us_in: None,
            us_out: None,
            us_diff: None,
        }
    }

    /// Check if the response is successful
    pub fn is_success(&self) -> (r: bool)
        ensures
            r == (self.error is None && self.result is Some),
    {
        self.error.is_none() && self.result.is_some()
    }

    /// Check if the response is an error
    pub fn is_error(&self) -> (r: bool)
        ensures
            r == self.error is Some,
    {
        self.error.is_some()
    }

    /// Get the result, consuming the response. An error wins over a result;
    /// with neither, the outcome is an internal error (-32603).
    pub fn into_result(self) -> (r: Result<T, JsonRpcError>)
        ensures
            self.error matches Some(e) ==> r == Err::<T, JsonRpcError>(e),
            (self.error is None && self.result is Some) ==> r == Ok::<T, JsonRpcError>(
                self.result->0,
            ),
            (self.error is None && self.result is None) ==> (r matches Err(e) && e.code == -32603
                && e.message@ == missing_outcome_message() && e.data is None),
    {
        match (self.result, self.error) {
            (Some(result), None) => Ok(result),
            (None, Some(error)) => Err(error),
            (Some(_), Some(error)) => Err(error),
            (None, None) => Err(
                JsonRpcError {
                    code: -32603,
                    message: String::from_str("Internal error: neither result nor error present"),
                    data: None,
                },
            ),
        }
    }
}

/// JSON-RPC error information
#[derive(Clone, Debug, PartialEq)]
pub struct JsonRpcError {
    /// Error code
    pub code: i32,
    /// Error message
    pub message: String,
    /// Additional error data
    pub data: Option<serde_json::Value>,
}

impl JsonRpcError {
    /// Create a new JSON-RPC error
    pub fn new(code: i32, message: String) -> (r: JsonRpcError)
        ensures
            r == (JsonRpcError { code, message, data: None }),
    {
        JsonRpcError { code, message, data: None }
    }

    /// Create an error with additional data
    pub fn with_data(code: i32, message: String, data: serde_json::Value) -> (r: JsonRpcError)
        ensures
            r == (JsonRpcError { code, message, data: Some(data) }),
    {
        JsonRpcError { code, message, data: Some(data) }
    }

    /// Parse error (-32700)
    pub fn parse_error() -> (r: JsonRpcError)
        ensures
            r.code == -32700,
            r.message@ == "Parse error"@,
            r.data is None,
    {
        JsonRpcError::new(-32700, String::from_str("Parse error"))
    }

    /// Invalid request (-32600)
    pub fn invalid_request() -> (r: JsonRpcError)
        ensures
            r.code == -32600,
            r.message@ == "Invalid Request"@,
            r.data is None,
    {
        JsonRpcError::new(-32600, String::from_str("Invalid Request"))
    }

    /// Method not found (-32601)
    pub fn method_not_found() -> (r: JsonRpcError)
        ensures
            r.code == -32601,
            r.message@ == "Method not found"@,
            r.data is None,
    {
        JsonRpcError::new(-32601, String::from_str("Method not found"))
    }

    /// Invalid params (-32602)
    pub fn invalid_params() -> (r: JsonRpcError)
        ensures
            r.code == -32602,
            r.message@ == "Invalid params"@,
            r.data is None,
    {
        JsonRpcError::new(-32602, String::from_str("Invalid params"))
    }

    /// Internal error (-32603)
    pub fn internal_error() -> (r: JsonRpcError)
        ensures
            r.code == -32603,
            r.message@ == "Internal error"@,
            r.data is None,
    {
        JsonRpcError::new(-32603, String::from_str("Internal error"))
    }

    /// Check if this is a server error (code between -32099 and -32000)
    pub fn is_server_error(&self) -> (r: bool)
        ensures
            r == (-32099 <= self.code <= -32000),
    {
        self.code <= -32000 && self.code >= -32099
    }

    /// Check if this is an application error (code > -32000)
    pub fn is_application_error(&self) -> (r: bool)
        ensures
            r == (self.code > -32000),
    {
        self.code > -32000
    }
}

/// Authentication response
#[derive(Clone, Debug)]
pub struct AuthResponse {
    /// Access token
    pub access_token: String,
    /// Token type (usually "bearer")
    pub token_type: String,
    /// Expires in seconds
    pub expires_in: i64,
    /// Refresh token
    pub refresh_token: String,
    /// Scope
    pub scope: String,
}

/// Pagination information
#[derive(Clone, Copy, Debug, PartialEq, Eq, Structural)]
pub struct Pagination {
    /// Current page
    pub page: Option<u32>,
    /// Items per page
    pub per_page: Option<u32>,
    /// Total items
    pub total: Option<u64>,
    /// Total pages
    pub pages: Option<u32>,
    /// Has more pages
    pub has_more: Option<bool>,
}

/// Generic paginated response
#[derive(Clone, Debug)]
pub struct PaginatedResponse<T> {
    /// Data items
    pub data: Vec<T>,
    /// Pagination information
    pub pagination: Option<Pagination>,
}

impl<T> PaginatedResponse<T> {
    /// Whether the pagination says that more pages follow.
    pub open spec fn spec_has_more(self) -> bool {
        self.pagination matches Some(p) && p.has_more == Some(true)
    }

    /// Create a new paginated response
    pub fn new(data: Vec<T>) -> (r: PaginatedResponse<T>)
        ensures
            r.data == data,
            r.pagination is None,
    {
        PaginatedResponse { data, pagination: None }
    }

    /// Create a paginated response with pagination info
    pub fn with_pagination(data: Vec<T>, pagination: Pagination) -> (r: PaginatedResponse<T>)
        ensures
            r.data == data,
            r.pagination == Some(pagination),
    {
        PaginatedResponse { data, pagination: Some(pagination) }
    }

    /// Check if there are more pages
    pub fn has_more(&self) -> (r: bool)
        ensures
            r == self.spec_has_more(),
    {
        match &self.pagination {
            Some(p) => match p.has_more {
                Some(b) => b,
                None => false,
            },
            None => false,
        }
    }

    /// Get the number of items
    pub fn len(&self) -> (r: usize)
        ensures
            r == self.data@.len(),
    {
        self.data.len()
    }

    /// Check if the response is empty
    pub fn is_empty(&self) -> (r: bool)
        ensures
            r == (self.data@.len() == 0),
    {
        self.data.len() == 0
    }
}

/// WebSocket notification
#[derive(Clone, Debug)]
pub struct Notification<T> {
    /// JSON-RPC version
    pub jsonrpc: String,
    /// Method name
    pub method: String,
    /// Parameters/data
    pub params: T,
}

impl<T> Notification<T> {
    /// Create a new notification
    pub fn new(method: String, params: T) -> (r: Notification<T>)
        ensures
            r.jsonrpc@ == "2.0"@,
            r.method == method,
            r.params == params,
    {
        Notification { jsonrpc: String::from_str("2.0"), method, params }
    }
}

/// Subscription response
#[derive(Clone, Debug)]
pub struct SubscriptionResponse {
    /// Subscription ID
    pub subscription: String,
    /// Channel name
    pub channel: String,
}

/// Heartbeat response
#[derive(Clone, Debug)]
pub struct HeartbeatResponse {
    /// Type (always "heartbeat")
    pub type_: String,
}

/// Test response for connectivity checks
#[derive(Clone, Debug)]
pub struct TestResponse {
    /// Version information
    pub version: String,
}

/// Server time response
#[derive(Clone, Debug)]
pub struct ServerTimeResponse {
    /// Current server timestamp in milliseconds
    pub timestamp: i64,
}

/// Settlements response structure
#[derive(Clone, Debug)]
pub struct SettlementsResponse {
    /// Continuation token for pagination
    pub continuation: Option<String>,
    /// List of settlement events
    pub settlements: Vec<Settlement>,
}

impl SettlementsResponse {
    /// Create a new settlements response
    pub fn new(settlements: Vec<Settlement>) -> (r: SettlementsResponse)
        ensures
            r.continuation is None,
            r.settlements == settlements,
    {
        SettlementsResponse { continuation: None, settlements }
    }

    /// Create settlements response with continuation token
    pub fn with_continuation(settlements: Vec<Settlement>, continuation: String) -> (r:
        SettlementsResponse)
        ensures
            r.continuation == Some(continuation),
            r.settlements == settlements,
    {
        SettlementsResponse { continuation: Some(continuation), settlements }
    }

    /// Check if there are more results
    pub fn has_more(&self) -> (r: bool)
        ensures
            r == self.continuation is Some,
    {
        self.continuation.is_some()
    }
}

/// Status response
#[derive(Clone, Debug)]
pub struct StatusResponse {
    /// Whether the system is locked (optional)
    pub locked: Option<bool>,
    /// Status message (optional)
    pub message: Option<String>,
    /// List of locked indices (optional)
    pub locked_indices: Option<Vec<String>>,
    /// Additional fields that might be present in the API response
    pub additional_fields: std::collections::HashMap<String, serde_json::Value>,
}

/// Hello response
#[derive(Clone, Debug)]
pub struct HelloResponse {
    /// Version string
    pub version: String,
}

/// Currency-specific expirations
#[derive(Clone, Debug)]
pub struct CurrencyExpirations {
    /// Future instrument expirations
    pub future: Option<Vec<String>>,
    /// Option instrument expirations
    pub option: Option<Vec<String>>,
}

/// Expirations response
#[derive(Clone, Debug)]
pub struct ExpirationsResponse {
    /// Direct future expirations (when currency="any")
    pub future: Option<Vec<String>>,
    /// Direct option expirations (when currency="any")
    pub option: Option<Vec<String>>,
    /// Map of currency to their expirations (when specific currency)
    pub currencies: std::collections::HashMap<String, CurrencyExpirations>,
}

/// Mass quote response
#[derive(Clone, Debug)]
pub struct MassQuoteResponse {
    /// List of quote results
    pub quotes: Vec<QuoteResult>,
}

} // verus!
