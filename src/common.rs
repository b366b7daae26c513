//! Settings shared by every client: credentials, network choice and the
//! venue's endpoints.
use vstd::prelude::*;

verus! {

/// Common configuration for Deribit clients
#[derive(Clone, Debug)]
pub struct DeribitConfig {
    pub client_id: String,
    pub client_secret: String,
    pub test_net: bool,
    pub timeout_seconds: u64,
}

impl Default for DeribitConfig {
    /// Testnet with no credentials and a 30 second timeout.
    fn default() -> (r: DeribitConfig)
        ensures
            r.client_id@ == Seq::<char>::empty(),
            r.client_secret@ == Seq::<char>::empty(),
            r.test_net,
            r.timeout_seconds == 30,
    {
        DeribitConfig {
            client_id: String::new(),
            client_secret: String::new(),
            test_net: true,
            timeout_seconds: 30,
        }
    }
}

/// Base URL configuration
pub struct DeribitUrls;

impl DeribitUrls {
    pub const PROD_BASE_URL: &'static str = "https://www.deribit.com";
    pub const TEST_BASE_URL: &'static str = "https://test.deribit.com";
    pub const PROD_WS_URL: &'static str = "wss://www.deribit.com/ws/api/v2";
    pub const TEST_WS_URL: &'static str = "wss://test.deribit.com/ws/api/v2";

    /// The HTTP base URL of the test network or of production.
    pub fn get_base_url(test_net: bool) -> (r: &'static str)
        ensures
            r@ == (if test_net {
                DeribitUrls::TEST_BASE_URL@
            } else {
                DeribitUrls::PROD_BASE_URL@
            }),
    {
        if test_net {
            DeribitUrls::TEST_BASE_URL
        } else {
            DeribitUrls::PROD_BASE_URL
        }
    }

    /// The WebSocket URL of the test network or of production.
    pub fn get_ws_url(test_net: bool) -> (r: &'static str)
        ensures
            r@ == (if test_net {
                DeribitUrls::TEST_WS_URL@
            } else {
                DeribitUrls::PROD_WS_URL@
            }),
    {
        if test_net {
            DeribitUrls::TEST_WS_URL
        } else {
            DeribitUrls::PROD_WS_URL
        }
    }
}

} // verus!
