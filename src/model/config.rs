//! Client configuration: credentials, endpoints and transport settings.
use vstd::prelude::*;

verus! {

/// Deribit API URLs
pub struct DeribitUrls;

impl DeribitUrls {
    /// Production base URL
    pub const PROD_BASE_URL: &'static str = "https://www.deribit.com";
    /// Test base URL
    pub const TEST_BASE_URL: &'static str = "https://test.deribit.com";
    /// Production WebSocket URL
    pub const PROD_WS_URL: &'static str = "wss://www.deribit.com/ws/api/v2";
    /// Test WebSocket URL
    pub const TEST_WS_URL: &'static str = "wss://test.deribit.com/ws/api/v2";
}

/// Deribit API configuration
#[derive(Clone, Debug)]
pub struct DeribitConfig {
    /// Client ID for API authentication
    pub client_id: String,
    /// Client secret for API authentication
    pub client_secret: String,
    /// Whether to use testnet
    pub test_net: bool,
    /// Request timeout in seconds
    pub timeout_seconds: u64,
    /// Maximum number of retries
    pub max_retries: u32,
    /// Rate limit per second
    pub rate_limit: Option<u32>,
    /// User agent string
    pub user_agent: Option<String>,
}

impl DeribitConfig {
    /// The settings that a fresh configuration starts with, for the given
    /// credentials and network.
    pub open spec fn fresh(self, client_id: String, client_secret: String, test_net: bool) -> bool {
        &&& self.client_id == client_id
        &&& self.client_secret == client_secret
        &&& self.test_net == test_net
        &&& self.timeout_seconds == 30
        &&& self.max_retries == 3
        &&& self.rate_limit is None
        &&& self.user_agent is None
    }

    /// The base URL of the network this configuration points at.
    pub open spec fn spec_base_url(self) -> Seq<char> {
        if self.test_net {
            DeribitUrls::TEST_BASE_URL@
        } else {
            DeribitUrls::PROD_BASE_URL@
        }
    }

    /// Create a new configuration for production
    pub fn new(client_id: String, client_secret: String) -> (r: DeribitConfig)
        ensures
            r.fresh(client_id, client_secret, false),
    {
        DeribitConfig {
            client_id,
            client_secret,
            test_net: false,
            timeout_seconds: 30,
            max_retries: 3,
            rate_limit: None,
            user_agent: None,
        }
    }

    /// Create a new configuration for testnet
    pub fn testnet(client_id: String, client_secret: String) -> (r: DeribitConfig)
        ensures
            r.fresh(client_id, client_secret, true),
    {
        DeribitConfig {
            client_id,
            client_secret,
            test_net: true,
            timeout_seconds: 30,
            max_retries: 3,
            rate_limit: None,
            user_agent: None,
        }
    }

    /// Set timeout in seconds
    pub fn with_timeout(self, timeout_seconds: u64) -> (r: DeribitConfig)
        ensures
            r == (DeribitConfig { timeout_seconds, ..self }),
    {
        DeribitConfig { timeout_seconds, ..self }
    }

    /// Set maximum retries
    pub fn with_max_retries(self, max_retries: u32) -> (r: DeribitConfig)
        ensures
            r == (DeribitConfig { max_retries, ..self }),
    {
        DeribitConfig { max_retries, ..self }
    }

    /// Set rate limit
    pub fn with_rate_limit(self, rate_limit: u32) -> (r: DeribitConfig)
        ensures
            r == (DeribitConfig { rate_limit: Some(rate_limit), ..self }),
    {
        DeribitConfig { rate_limit: Some(rate_limit), ..self }
    }

    /// Set user agent
    pub fn with_user_agent(self, user_agent: String) -> (r: DeribitConfig)
        ensures
            r == (DeribitConfig { user_agent: Some(user_agent), ..self }),
    {
        DeribitConfig { user_agent: Some(user_agent), ..self }
    }

    /// Get the base URL for HTTP API
    pub fn base_url(&self) -> (r: &'static str)
        ensures
            r@ == self.spec_base_url(),
    {
        if self.test_net {
            DeribitUrls::TEST_BASE_URL
        } else {
            DeribitUrls::PROD_BASE_URL
        }
    }

    /// Get the WebSocket URL
    pub fn ws_url(&self) -> (r: &'static str)
        ensures
            r@ == (if self.test_net {
                DeribitUrls::TEST_WS_URL@
            } else {
                DeribitUrls::PROD_WS_URL@
            }),
    {
        if self.test_net {
            DeribitUrls::TEST_WS_URL
        } else {
            DeribitUrls::PROD_WS_URL
        }
    }

    /// Get the API URL for HTTP requests
    pub fn api_url(&self) -> (r: String)
        ensures
            r@ == self.spec_base_url() + "/api/v2"@,
    {
        String::from_str(self.base_url()).concat("/api/v2")
    }
}

impl Default for DeribitConfig {
    /// Testnet, no credentials, and the library's own user agent.
    fn default() -> (r: DeribitConfig)
        ensures
            r.client_id@ == Seq::<char>::empty(),
            r.client_secret@ == Seq::<char>::empty(),
            r.test_net,
            r.timeout_seconds == 30,
            r.max_retries == 3,
            r.rate_limit is None,
            r.user_agent matches Some(u) && u@ == "deribit-rust-client/1.0"@,
    {
        DeribitConfig {
            client_id: String::new(),
            client_secret: String::new(),
            test_net: true,
            timeout_seconds: 30,
            max_retries: 3,
            rate_limit: None,
            user_agent: Some(String::from_str("deribit-rust-client/1.0")),
        }
    }
}

/// Connection configuration for WebSocket
#[derive(Clone, Debug)]
pub struct WebSocketConfig {
    /// Base configuration
    pub base: DeribitConfig,
    /// Ping interval in seconds
    pub ping_interval: u64,
    /// Pong timeout in seconds
    pub pong_timeout: u64,
    /// Reconnect attempts
    pub reconnect_attempts: u32,
    /// Reconnect delay in seconds
    pub reconnect_delay: u64,
    /// Maximum message size
    pub max_message_size: usize,
    /// Enable compression
    pub compression: bool,
}

impl WebSocketConfig {
    /// Create new WebSocket configuration
    pub fn new(base: DeribitConfig) -> (r: WebSocketConfig)
        ensures
            r == (WebSocketConfig {
                base,
                ping_interval: 30,
                pong_timeout: 10,
                reconnect_attempts: 5,
                reconnect_delay: 5,
                max_message_size: 1048576,
                compression: true,
            }),
    {
        WebSocketConfig {
            base,
            ping_interval: 30,
            pong_timeout: 10,
            reconnect_attempts: 5,
            reconnect_delay: 5,
            max_message_size: 1024 * 1024,
            compression: true,
        }
    }

    /// Set ping interval
    pub fn with_ping_interval(self, ping_interval: u64) -> (r: WebSocketConfig)
        ensures
            r == (WebSocketConfig { ping_interval, ..self }),
    {
        WebSocketConfig { ping_interval, ..self }
    }

    /// Set pong timeout
    pub fn with_pong_timeout(self, pong_timeout: u64) -> (r: WebSocketConfig)
        ensures
            r == (WebSocketConfig { pong_timeout, ..self }),
    {
        WebSocketConfig { pong_timeout, ..self }
    }

    /// Set reconnect attempts
    pub fn with_reconnect_attempts(self, reconnect_attempts: u32) -> (r: WebSocketConfig)
        ensures
            r == (WebSocketConfig { reconnect_attempts, ..self }),
    {
        WebSocketConfig { reconnect_attempts, ..self }
    }

    /// Set reconnect delay
    pub fn with_reconnect_delay(self, reconnect_delay: u64) -> (r: WebSocketConfig)
        ensures
            r == (WebSocketConfig { reconnect_delay, ..self }),
    {
        WebSocketConfig { reconnect_delay, ..self }
    }

    /// Enable/disable compression
    pub fn with_compression(self, compression: bool) -> (r: WebSocketConfig)
        ensures
            r == (WebSocketConfig { compression, ..self }),
    {
        WebSocketConfig { compression, ..self }
    }
}

/// HTTP client configuration
#[derive(Clone, Debug)]
pub struct HttpConfig {
    /// Base configuration
    pub base: DeribitConfig,
    /// Connection pool size
    pub pool_size: Option<usize>,
    /// Keep alive timeout
    pub keep_alive: Option<u64>,
    /// Enable HTTP/2
    pub http2: bool,
    /// Enable gzip compression
    pub gzip: bool,
}

impl HttpConfig {
    /// Create new HTTP configuration
    pub fn new(base: DeribitConfig) -> (r: HttpConfig)
        ensures
            r == (HttpConfig { base, pool_size: None, keep_alive: Some(30), http2: true, gzip: true }),
    {
        HttpConfig { base, pool_size: None, keep_alive: Some(30), http2: true, gzip: true }
    }

    /// Set connection pool size
    pub fn with_pool_size(self, pool_size: usize) -> (r: HttpConfig)
        ensures
            r == (HttpConfig { pool_size: Some(pool_size), ..self }),
    {
        HttpConfig { pool_size: Some(pool_size), ..self }
    }

    /// Set keep alive timeout
    pub fn with_keep_alive(self, keep_alive: u64) -> (r: HttpConfig)
        ensures
            r == (HttpConfig { keep_alive: Some(keep_alive), ..self }),
    {
        HttpConfig { keep_alive: Some(keep_alive), ..self }
    }

    /// Enable/disable HTTP/2
    pub fn with_http2(self, http2: bool) -> (r: HttpConfig)
        ensures
            r == (HttpConfig { http2, ..self }),
    {
        HttpConfig { http2, ..self }
    }

    /// Enable/disable gzip compression
    pub fn with_gzip(self, gzip: bool) -> (r: HttpConfig)
        ensures
            r == (HttpConfig { gzip, ..self }),
    {
        HttpConfig { gzip, ..self }
    }
}

} // verus!
