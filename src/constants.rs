//! Endpoints, limits, timeouts and other fixed values of the venue's API,
//! with the per-currency lookups.
use vstd::prelude::*;
use crate::text::str_eq;

verus! {

// API endpoints

/// Deribit production WebSocket URL
pub const DERIBIT_WS_URL_PROD: &'static str = "wss://www.deribit.com/ws/api/v2";
/// Deribit test WebSocket URL
pub const DERIBIT_WS_URL_TEST: &'static str = "wss://test.deribit.com/ws/api/v2";
/// Deribit production HTTP API URL
pub const DERIBIT_HTTP_URL_PROD: &'static str = "https://www.deribit.com/api/v2";
/// Deribit test HTTP API URL
pub const DERIBIT_HTTP_URL_TEST: &'static str = "https://test.deribit.com/api/v2";

// Rate limits

/// Maximum requests per second for authenticated users
pub const MAX_REQUESTS_PER_SECOND_AUTH: u32 = 20;
/// Maximum requests per second for non-authenticated users
pub const MAX_REQUESTS_PER_SECOND_UNAUTH: u32 = 10;
/// Maximum subscriptions per connection
pub const MAX_SUBSCRIPTIONS_PER_CONNECTION: u32 = 200;
/// Maximum message size in bytes (64 KiB)
pub const MAX_MESSAGE_SIZE_BYTES: usize = 65536;

// Timeouts

/// Default connection timeout in milliseconds
pub const DEFAULT_CONNECTION_TIMEOUT_MS: u64 = 5000;
/// Default request timeout in milliseconds
pub const DEFAULT_REQUEST_TIMEOUT_MS: u64 = 10000;
/// Heartbeat interval in milliseconds
pub const HEARTBEAT_INTERVAL_MS: u64 = 10000;
/// Maximum time to wait for heartbeat response in milliseconds
pub const HEARTBEAT_TIMEOUT_MS: u64 = 5000;

// Currencies

/// Bitcoin currency code
pub const CURRENCY_BTC: &'static str = "BTC";
/// Ethereum currency code
pub const CURRENCY_ETH: &'static str = "ETH";
/// Solana currency code
pub const CURRENCY_SOL: &'static str = "SOL";
/// USD Coin currency code
pub const CURRENCY_USDC: &'static str = "USDC";
/// Tether currency code
pub const CURRENCY_USDT: &'static str = "USDT";
/// Euro stablecoin currency code
pub const CURRENCY_EURR: &'static str = "EURR";

// Instrument types

/// Future instrument type
pub const INSTRUMENT_TYPE_FUTURE: &'static str = "future";
/// Option instrument type
pub const INSTRUMENT_TYPE_OPTION: &'static str = "option";
/// Perpetual instrument type
pub const INSTRUMENT_TYPE_PERPETUAL: &'static str = "perpetual";
/// Spot instrument type
pub const INSTRUMENT_TYPE_SPOT: &'static str = "spot";
/// Future combo instrument type
pub const INSTRUMENT_TYPE_FUTURE_COMBO: &'static str = "future_combo";
/// Option combo instrument type
pub const INSTRUMENT_TYPE_OPTION_COMBO: &'static str = "option_combo";

// Order limits

/// Maximum number of open orders per instrument
pub const MAX_OPEN_ORDERS_PER_INSTRUMENT: u32 = 500;
/// Maximum number of open orders total
pub const MAX_OPEN_ORDERS_TOTAL: u32 = 2000;

// Precision

/// Price precision for BTC instruments (8 decimal places)
pub const PRICE_PRECISION_BTC: u8 = 8;
/// Price precision for ETH instruments (4 decimal places)
pub const PRICE_PRECISION_ETH: u8 = 4;
/// Price precision for SOL instruments (4 decimal places)
pub const PRICE_PRECISION_SOL: u8 = 4;
/// Amount precision for BTC (4 decimal places)
pub const AMOUNT_PRECISION_BTC: u8 = 4;
/// Amount precision for ETH (3 decimal places)
pub const AMOUNT_PRECISION_ETH: u8 = 3;
/// Amount precision for SOL (1 decimal place)
pub const AMOUNT_PRECISION_SOL: u8 = 1;

// JSON-RPC

/// JSON-RPC version
pub const JSONRPC_VERSION: &'static str = "2.0";
/// Default JSON-RPC request ID
pub const DEFAULT_REQUEST_ID: u64 = 1;

// WebSocket channels

/// Book channel prefix
pub const CHANNEL_BOOK: &'static str = "book";
/// Trades channel prefix
pub const CHANNEL_TRADES: &'static str = "trades";
/// Ticker channel prefix
pub const CHANNEL_TICKER: &'static str = "ticker";
/// Quote channel prefix
pub const CHANNEL_QUOTE: &'static str = "quote";
/// User orders channel
pub const CHANNEL_USER_ORDERS: &'static str = "user.orders";
/// User trades channel
pub const CHANNEL_USER_TRADES: &'static str = "user.trades";
/// User portfolio channel
pub const CHANNEL_USER_PORTFOLIO: &'static str = "user.portfolio";

// FIX protocol

/// FIX version 4.4
pub const FIX_VERSION: &'static str = "FIX.4.4";
/// FIX message delimiter (SOH - Start of Header)
pub const FIX_DELIMITER: char = '\x01';
/// FIX message delimiter as string
pub const FIX_DELIMITER_STR: &'static str = "\x01";
/// Default FIX heartbeat interval in seconds
pub const FIX_HEARTBEAT_INTERVAL: u32 = 30;

// Error handling

/// Maximum retry attempts for failed requests
pub const MAX_RETRY_ATTEMPTS: u8 = 3;
/// Base delay for exponential backoff in milliseconds
pub const RETRY_BASE_DELAY_MS: u64 = 1000;
/// Maximum delay for exponential backoff in milliseconds
pub const RETRY_MAX_DELAY_MS: u64 = 30000;

// Market data

/// Maximum depth levels for order book
pub const MAX_ORDER_BOOK_DEPTH: u32 = 10000;
/// Default order book depth
pub const DEFAULT_ORDER_BOOK_DEPTH: u32 = 20;
/// Maximum number of recent trades to fetch
pub const MAX_RECENT_TRADES: u32 = 10000;
/// Default number of recent trades
pub const DEFAULT_RECENT_TRADES: u32 = 100;

// Authentication

/// Access token expiration time in seconds (8 hours)
pub const ACCESS_TOKEN_EXPIRATION_SEC: u64 = 28800;
/// Refresh token expiration time in seconds (30 days)
pub const REFRESH_TOKEN_EXPIRATION_SEC: u64 = 2592000;
/// Minimum time before token expiration to refresh (5 minutes)
pub const TOKEN_REFRESH_BUFFER_SEC: u64 = 300;

/// Price precision by currency code; a code other than ETH or SOL gets BTC's.
pub open spec fn spec_price_precision(currency: Seq<char>) -> u8 {
    if currency == "BTC"@ {
        PRICE_PRECISION_BTC
    } else if currency == "ETH"@ {
        PRICE_PRECISION_ETH
    } else if currency == "SOL"@ {
        PRICE_PRECISION_SOL
    } else {
        PRICE_PRECISION_BTC
    }
}

/// Amount precision by currency code; a code other than ETH or SOL gets BTC's.
pub open spec fn spec_amount_precision(currency: Seq<char>) -> u8 {
    if currency == "BTC"@ {
        AMOUNT_PRECISION_BTC
    } else if currency == "ETH"@ {
        AMOUNT_PRECISION_ETH
    } else if currency == "SOL"@ {
        AMOUNT_PRECISION_SOL
    } else {
        AMOUNT_PRECISION_BTC
    }
}

/// The currency codes that the venue supports.
pub open spec fn spec_supported_currency(currency: Seq<char>) -> bool {
    ||| currency == "BTC"@
    ||| currency == "ETH"@
    ||| currency == "SOL"@
    ||| currency == "USDC"@
    ||| currency == "USDT"@
    ||| currency == "EURR"@
}

/// Get price precision for a given currency
pub fn get_price_precision(currency: &str) -> (r: u8)
    ensures
        r == spec_price_precision(currency@),
{
    if str_eq(currency, "BTC") {
        PRICE_PRECISION_BTC
    } else if str_eq(currency, "ETH") {
        PRICE_PRECISION_ETH
    } else if str_eq(currency, "SOL") {
        PRICE_PRECISION_SOL
    } else {
        PRICE_PRECISION_BTC
    }
}

/// Get amount precision for a given currency
pub fn get_amount_precision(currency: &str) -> (r: u8)
    ensures
        r == spec_amount_precision(currency@),
{
    if str_eq(currency, "BTC") {
        AMOUNT_PRECISION_BTC
    } else if str_eq(currency, "ETH") {
        AMOUNT_PRECISION_ETH
    } else if str_eq(currency, "SOL") {
        AMOUNT_PRECISION_SOL
    } else {
        AMOUNT_PRECISION_BTC
    }
}

/// Check if a currency is supported
pub fn is_supported_currency(currency: &str) -> (r: bool)
    ensures
        r == spec_supported_currency(currency@),
{
    str_eq(currency, "BTC") || str_eq(currency, "ETH") || str_eq(currency, "SOL") || str_eq(
        currency,
        "USDC",
    ) || str_eq(currency, "USDT") || str_eq(currency, "EURR")
}

} // verus!
