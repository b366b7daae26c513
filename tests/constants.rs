use deribit_base::constants::{
    get_amount_precision, get_price_precision, is_supported_currency,
    ACCESS_TOKEN_EXPIRATION_SEC, AMOUNT_PRECISION_BTC, AMOUNT_PRECISION_ETH, AMOUNT_PRECISION_SOL,
    CHANNEL_BOOK, CHANNEL_QUOTE, CHANNEL_TICKER, CHANNEL_TRADES, CHANNEL_USER_ORDERS,
    CHANNEL_USER_PORTFOLIO, CHANNEL_USER_TRADES, CURRENCY_BTC, CURRENCY_ETH, CURRENCY_EURR,
    CURRENCY_SOL, CURRENCY_USDC, CURRENCY_USDT, DEFAULT_CONNECTION_TIMEOUT_MS,
    DEFAULT_ORDER_BOOK_DEPTH, DEFAULT_RECENT_TRADES, DEFAULT_REQUEST_ID,
    DEFAULT_REQUEST_TIMEOUT_MS, DERIBIT_HTTP_URL_PROD, DERIBIT_HTTP_URL_TEST,
    DERIBIT_WS_URL_PROD, DERIBIT_WS_URL_TEST, FIX_DELIMITER, FIX_DELIMITER_STR,
    FIX_HEARTBEAT_INTERVAL, FIX_VERSION, HEARTBEAT_INTERVAL_MS, HEARTBEAT_TIMEOUT_MS,
    INSTRUMENT_TYPE_FUTURE, INSTRUMENT_TYPE_FUTURE_COMBO, INSTRUMENT_TYPE_OPTION,
    INSTRUMENT_TYPE_OPTION_COMBO, INSTRUMENT_TYPE_PERPETUAL, INSTRUMENT_TYPE_SPOT,
    JSONRPC_VERSION, MAX_MESSAGE_SIZE_BYTES, MAX_ORDER_BOOK_DEPTH, MAX_RECENT_TRADES,
    MAX_REQUESTS_PER_SECOND_AUTH, MAX_REQUESTS_PER_SECOND_UNAUTH, MAX_RETRY_ATTEMPTS,
    MAX_SUBSCRIPTIONS_PER_CONNECTION, PRICE_PRECISION_BTC, PRICE_PRECISION_ETH,
    PRICE_PRECISION_SOL, REFRESH_TOKEN_EXPIRATION_SEC, RETRY_BASE_DELAY_MS, RETRY_MAX_DELAY_MS,
    TOKEN_REFRESH_BUFFER_SEC,
};

#[test]
fn test_api_urls() {
    assert!(DERIBIT_WS_URL_PROD.starts_with("wss://"));
    assert!(DERIBIT_WS_URL_TEST.starts_with("wss://"));
    assert!(DERIBIT_HTTP_URL_PROD.starts_with("https://"));
    assert!(DERIBIT_HTTP_URL_TEST.starts_with("https://"));

    assert!(DERIBIT_WS_URL_PROD.contains("www.deribit.com"));
    assert!(DERIBIT_WS_URL_TEST.contains("test.deribit.com"));
}

#[test]
fn test_supported_currencies() {
    assert!(is_supported_currency(CURRENCY_BTC));
    assert!(is_supported_currency(CURRENCY_ETH));
    assert!(is_supported_currency(CURRENCY_SOL));
    assert!(is_supported_currency(CURRENCY_USDC));
    assert!(is_supported_currency(CURRENCY_USDT));
    assert!(is_supported_currency(CURRENCY_EURR));

    assert!(!is_supported_currency("INVALID"));
    assert!(!is_supported_currency("XRP"));
}

#[test]
fn test_precision_functions() {
    assert_eq!(get_price_precision(CURRENCY_BTC), PRICE_PRECISION_BTC);
    assert_eq!(get_price_precision(CURRENCY_ETH), PRICE_PRECISION_ETH);
    assert_eq!(get_price_precision(CURRENCY_SOL), PRICE_PRECISION_SOL);

    assert_eq!(get_amount_precision(CURRENCY_BTC), AMOUNT_PRECISION_BTC);
    assert_eq!(get_amount_precision(CURRENCY_ETH), AMOUNT_PRECISION_ETH);
    assert_eq!(get_amount_precision(CURRENCY_SOL), AMOUNT_PRECISION_SOL);
}

#[test]
fn test_rate_limits() {
    assert!(MAX_REQUESTS_PER_SECOND_AUTH > MAX_REQUESTS_PER_SECOND_UNAUTH);
    assert!(MAX_SUBSCRIPTIONS_PER_CONNECTION > 0);
    assert!(MAX_MESSAGE_SIZE_BYTES > 0);
}

#[test]
fn test_timeouts() {
    assert!(DEFAULT_CONNECTION_TIMEOUT_MS > 0);
    assert!(DEFAULT_REQUEST_TIMEOUT_MS > DEFAULT_CONNECTION_TIMEOUT_MS);
    assert!(HEARTBEAT_INTERVAL_MS > HEARTBEAT_TIMEOUT_MS);
}

#[test]
fn test_jsonrpc_constants() {
    assert_eq!(JSONRPC_VERSION, "2.0");
    assert!(DEFAULT_REQUEST_ID > 0);
}

#[test]
fn test_fix_constants() {
    assert_eq!(FIX_VERSION, "FIX.4.4");
    assert_eq!(FIX_DELIMITER, '\x01');
    assert_eq!(FIX_DELIMITER_STR, "\x01");
    assert!(FIX_HEARTBEAT_INTERVAL > 0);
}

#[test]
fn test_channel_names() {
    assert!(!CHANNEL_BOOK.is_empty());
    assert!(!CHANNEL_TRADES.is_empty());
    assert!(!CHANNEL_TICKER.is_empty());
    assert!(!CHANNEL_QUOTE.is_empty());
    assert!(CHANNEL_USER_ORDERS.starts_with("user."));
    assert!(CHANNEL_USER_TRADES.starts_with("user."));
    assert!(CHANNEL_USER_PORTFOLIO.starts_with("user."));
}

#[test]
fn test_instrument_types() {
    let types = [
        INSTRUMENT_TYPE_FUTURE,
        INSTRUMENT_TYPE_OPTION,
        INSTRUMENT_TYPE_PERPETUAL,
        INSTRUMENT_TYPE_SPOT,
        INSTRUMENT_TYPE_FUTURE_COMBO,
        INSTRUMENT_TYPE_OPTION_COMBO,
    ];

    for instrument_type in types {
        assert!(!instrument_type.is_empty());
    }
}

#[test]
fn test_authentication_constants() {
    assert!(ACCESS_TOKEN_EXPIRATION_SEC > 0);
    assert!(REFRESH_TOKEN_EXPIRATION_SEC > ACCESS_TOKEN_EXPIRATION_SEC);
    assert!(TOKEN_REFRESH_BUFFER_SEC < ACCESS_TOKEN_EXPIRATION_SEC);
}

#[test]
fn test_market_data_constants() {
    assert!(MAX_ORDER_BOOK_DEPTH > DEFAULT_ORDER_BOOK_DEPTH);
    assert!(MAX_RECENT_TRADES > DEFAULT_RECENT_TRADES);
    assert!(DEFAULT_ORDER_BOOK_DEPTH > 0);
    assert!(DEFAULT_RECENT_TRADES > 0);
}

#[test]
fn test_error_handling_constants() {
    assert!(MAX_RETRY_ATTEMPTS > 0);
    assert!(RETRY_BASE_DELAY_MS > 0);
    assert!(RETRY_MAX_DELAY_MS > RETRY_BASE_DELAY_MS);
}

#[test]
fn precision_defaults_to_btc_for_unknown_currency() {
    assert_eq!(get_price_precision("XRP"), PRICE_PRECISION_BTC);
    assert_eq!(get_amount_precision("XRP"), AMOUNT_PRECISION_BTC);
    assert_eq!(get_price_precision(""), 8);
    assert_eq!(get_amount_precision("btc"), 4);
    assert_eq!(get_amount_precision("ETH"), 3);
    assert_eq!(get_amount_precision("SOL"), 1);
}

#[test]
fn supported_currency_is_case_sensitive_and_exact() {
    assert!(!is_supported_currency("btc"));
    assert!(!is_supported_currency("BTCX"));
    assert!(!is_supported_currency(""));
    assert!(is_supported_currency("EURR"));
}
