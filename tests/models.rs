use deribit_base::common::{DeribitConfig as CommonConfig, DeribitUrls as CommonUrls};
use deribit_base::model::config::{DeribitConfig, HttpConfig, WebSocketConfig};
use deribit_base::model::response::{JsonRpcError, JsonRpcResponse, PaginatedResponse, Pagination};
use deribit_base::model::transaction::TransactionType;
use deribit_base::model::transfer::{AddressBookEntry, AddressType, TransferState};

#[test]
fn common_urls_by_network() {
    assert_eq!(CommonUrls::get_base_url(true), "https://test.deribit.com");
    assert_eq!(CommonUrls::get_base_url(false), "https://www.deribit.com");
    assert_eq!(CommonUrls::get_ws_url(true), "wss://test.deribit.com/ws/api/v2");
    assert_eq!(CommonUrls::get_ws_url(false), "wss://www.deribit.com/ws/api/v2");
}

#[test]
fn common_config_default() {
    let c = CommonConfig::default();
    assert!(c.test_net);
    assert_eq!(c.timeout_seconds, 30);
    assert!(c.client_id.is_empty());
    assert!(c.client_secret.is_empty());
}

#[test]
fn builders_leave_other_fields_alone() {
    let c = DeribitConfig::testnet("id".to_string(), "s".to_string())
        .with_timeout(5)
        .with_rate_limit(7)
        .with_max_retries(0);
    assert_eq!(c.timeout_seconds, 5);
    assert_eq!(c.rate_limit, Some(7));
    assert_eq!(c.max_retries, 0);
    assert!(c.test_net);
    assert_eq!(c.client_id, "id");
    assert_eq!(c.api_url(), "https://test.deribit.com/api/v2");
    let ws = WebSocketConfig::new(c.clone()).with_ping_interval(1).with_compression(false);
    assert_eq!(ws.pong_timeout, 10);
    assert_eq!(ws.ping_interval, 1);
    let http = HttpConfig::new(c).with_gzip(false);
    assert!(http.http2);
    assert_eq!(http.keep_alive, Some(30));
}

#[test]
fn has_more_needs_an_explicit_true() {
    let p = Pagination { page: None, per_page: None, total: None, pages: None, has_more: Some(false) };
    assert!(!PaginatedResponse::with_pagination(vec![1u8], p).has_more());
    let q = Pagination { has_more: None, ..p };
    assert!(!PaginatedResponse::with_pagination(vec![1u8], q).has_more());
}

#[test]
fn error_wins_over_result() {
    let mut r = JsonRpcResponse::success(None, 5u8);
    r.error = Some(JsonRpcError::invalid_params());
    assert!(!r.is_success());
    assert!(r.is_error());
    let e = r.into_result().unwrap_err();
    assert_eq!(e.code, -32602);
}

#[test]
fn server_error_range_bounds() {
    assert!(JsonRpcError::new(-32000, String::new()).is_server_error());
    assert!(JsonRpcError::new(-32099, String::new()).is_server_error());
    assert!(!JsonRpcError::new(-32100, String::new()).is_server_error());
    assert!(!JsonRpcError::new(-32000, String::new()).is_application_error());
    assert!(!JsonRpcError::parse_error().is_server_error());
}

#[test]
fn transfer_defaults_and_address_kinds() {
    assert_eq!(TransferState::default(), TransferState::Prepared);
    assert_eq!(AddressType::default(), AddressType::Deposit);
    let e = AddressBookEntry::new("a".to_string(), "ETH".to_string(), "l".to_string(), AddressType::Transfer, 1)
        .with_vasp("did".to_string(), "name".to_string());
    assert!(e.is_transfer());
    assert!(!e.is_withdrawal());
    assert!(!e.requires_confirmation);
    assert_eq!(e.beneficiary_vasp_name, Some("name".to_string()));
    assert_eq!(e.personal, None);
    assert!(matches!(TransactionType::default(), TransactionType::Trade));
}
