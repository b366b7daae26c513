use deribit_base::error::codes::DeribitErrorCode;
use deribit_base::error::types::DeribitError;

#[test]
fn unknown_code_is_preserved() {
    let c = DeribitErrorCode::from_code(999999);
    assert_eq!(c, DeribitErrorCode::Unknown(999999));
    assert_eq!(c.code(), 999999);
    assert_eq!(c.message(), "unknown_error");
}

#[test]
fn negative_and_unlisted_codes_become_unknown() {
    assert_eq!(DeribitErrorCode::from_code(-1), DeribitErrorCode::Unknown(-1));
    assert_eq!(DeribitErrorCode::from_code(10008), DeribitErrorCode::Unknown(10008));
    assert_eq!(DeribitErrorCode::from_code(i32::MIN).code(), i32::MIN);
    assert_eq!(DeribitErrorCode::from_code(i32::MAX).code(), i32::MAX);
}

#[test]
fn code_zero_is_success() {
    assert_eq!(DeribitErrorCode::from_code(0), DeribitErrorCode::Success);
    assert!(DeribitErrorCode::from_code(0).is_success());
    assert_eq!(DeribitErrorCode::Success.message(), "success");
}

#[test]
fn code_round_trip_over_a_range() {
    for v in -10..14000 {
        assert_eq!(DeribitErrorCode::from_code(v).code(), v);
    }
}

#[test]
fn unknown_message_is_nonempty_for_any_payload() {
    for v in [i32::MIN, -1, 0, 7, 999999, i32::MAX] {
        assert!(!DeribitErrorCode::Unknown(v).message().is_empty());
    }
}

#[test]
fn status_mapping_literals() {
    assert_eq!(DeribitErrorCode::from_status(401).code(), 13009);
    assert_eq!(DeribitErrorCode::from_status(404).code(), 13020);
    assert_eq!(DeribitErrorCode::from_status(418), DeribitErrorCode::Unknown(418));
    assert_eq!(DeribitErrorCode::from_status(200), DeribitErrorCode::Unknown(200));
    assert_eq!(DeribitErrorCode::from(503u16), DeribitErrorCode::TemporarilyUnavailable);
}

#[test]
fn status_converts_to_envelope() {
    let e = DeribitError::from_status(401);
    assert!(e == DeribitError::Api { code: 13009, message: "unauthorized".to_string() });
    let unknown = DeribitError::from_status(418);
    assert!(unknown == DeribitError::Api { code: 418, message: "unknown_error".to_string() });
    for status in [400u16, 401, 403, 404, 418, 429, 500, 503, 599] {
        let chained = DeribitError::from(DeribitErrorCode::from(status));
        assert!(chained == DeribitError::from_status(status));
    }
}

#[test]
fn category_membership() {
    let a = DeribitErrorCode::AuthorizationRequired;
    assert!(a.is_authorization_error());
    assert!(!a.is_rate_limit_error());
    assert!(!a.is_validation_error());
    assert!(!a.is_trading_error());
    let t = DeribitErrorCode::TooManyRequests;
    assert!(t.is_rate_limit_error());
    assert!(!t.is_authorization_error());
    assert!(!t.is_validation_error());
    assert!(!t.is_trading_error());
    assert!(DeribitErrorCode::TooManyConcurrentRequests.is_rate_limit_error());
    assert!(!DeribitErrorCode::Unknown(10000).is_authorization_error());
    assert!(!DeribitErrorCode::Unknown(0).is_success());
}

#[test]
fn wire_form_is_bare_integer() {
    assert_eq!(DeribitErrorCode::AuthorizationRequired.to_json(), "10000");
    assert_eq!(DeribitErrorCode::Success.to_json(), "0");
    assert_eq!(DeribitErrorCode::Unknown(-42).to_json(), "-42");
    let back = DeribitErrorCode::from_json("10000").unwrap();
    assert_eq!(back, DeribitErrorCode::AuthorizationRequired);
    assert_eq!(DeribitErrorCode::from_json("123456").unwrap(), DeribitErrorCode::Unknown(123456));
}

#[test]
fn wire_rejects_names_and_garbage() {
    let named = DeribitErrorCode::from_json("\"authorization_required\"");
    assert!(matches!(named, Err(DeribitError::Serialization(_))));
    let garbage = DeribitErrorCode::from_json("ten");
    assert!(matches!(garbage, Err(DeribitError::Serialization(_))));
    let too_big = DeribitErrorCode::from_json("4294967296");
    assert!(matches!(too_big, Err(DeribitError::Serialization(_))));
}

#[test]
fn unknown_holding_a_registered_number_decodes_to_the_named_variant() {
    let c = DeribitErrorCode::Unknown(10000);
    let back = DeribitErrorCode::from_json(&c.to_json()).unwrap();
    assert_eq!(back, DeribitErrorCode::AuthorizationRequired);
}

#[test]
fn rendering_templates() {
    let api = DeribitError::Api { code: -5, message: "x".to_string() };
    assert_eq!(api.to_string(), "API error -5: x");
    let zero = DeribitError::Api { code: 0, message: String::new() };
    assert_eq!(zero.to_string(), "API error 0: ");
    let min = DeribitError::Api { code: i32::MIN, message: "m".to_string() };
    assert_eq!(min.to_string(), "API error -2147483648: m");
    assert_eq!(DeribitError::from_text("down").to_string(), "Connection error: down");
    assert_eq!(DeribitError::Timeout.to_string(), "Request timeout");
}

#[test]
fn envelope_equality_compares_kind_and_payload() {
    assert!(DeribitError::Timeout == DeribitError::Timeout);
    assert!(DeribitError::Other("a".to_string()) != DeribitError::Connection("a".to_string()));
    assert!(DeribitError::Other("a".to_string()) != DeribitError::Other("b".to_string()));
}

#[test]
fn code_envelope_carries_number_and_message() {
    let e = DeribitError::from_error_code(DeribitErrorCode::NotEnoughFunds);
    assert!(e == DeribitError::Api { code: 10009, message: "not_enough_funds".to_string() });
    assert_eq!(i32::from(DeribitErrorCode::QtyTooLow), 10002);
}

#[test]
fn serialization_text_is_kept_verbatim() {
    let e = DeribitError::from_serialization_text("expected value at line 1".to_string());
    assert!(e == DeribitError::Serialization("expected value at line 1".to_string()));
    assert_eq!(e.to_string(), "Serialization error: expected value at line 1");
    let parse = serde_json::from_str::<serde_json::Value>("{").unwrap_err();
    let text = parse.to_string();
    let converted = DeribitError::from_json_error(parse);
    assert!(converted == DeribitError::Serialization(text));
}

#[test]
fn messages_are_lowercase_snake_case() {
    for c in [
        DeribitErrorCode::OutdatedInstrumentForIvOrder,
        DeribitErrorCode::IncompleteKycData,
        DeribitErrorCode::KycTransferAlreadyInitiated,
        DeribitErrorCode::Unknown(5),
    ] {
        assert!(c.message().chars().all(|ch| ch.is_ascii_lowercase() || ch.is_ascii_digit() || ch == '_'));
    }
    assert_eq!(DeribitErrorCode::IncompleteKycData.message(), "incomplete_kyc_data");
}
