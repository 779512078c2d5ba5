use base64::Engine;

use flume_client::AccessToken;
use flume_client::AuthError;
use flume_client::ClaimError;
use flume_client::Credential;
use flume_client::DeviceError;
use flume_client::FlumeError;
use flume_client::LocalDateTime;
use flume_client::QueryError;
use flume_client::acquire;
use flume_client::build_login_request;
use flume_client::build_usage_request;
use flume_client::cred_to_login;
use flume_client::parse_usage_reply;
use flume_client::resolve_device;
use flume_client::resolve_user_id;
use flume_client::time_window;

fn token_with_claims(claims: &str) -> AccessToken {
    let seg = base64::engine::general_purpose::STANDARD.encode(claims.as_bytes());
    AccessToken {
        access_token: format!("header.{}.sig", seg),
        refresh_token: String::new(),
        expires_at: 0,
    }
}

#[test]
fn acquire_valid_reply_sets_expiry() {
    let body = "{\"success\":true,\"data\":[{\"token_type\":\"bearer\",\"access_token\":\"h.c.s\",\"expires_in\":3600,\"refresh_token\":\"r1\"}]}";
    let tok = acquire(body, 1000).unwrap();
    assert_eq!(tok.expires_at, 4600);
    assert_eq!(tok.access_token, "h.c.s");
    assert_eq!(tok.refresh_token, "r1");
}

#[test]
fn acquire_missing_data_is_malformed() {
    let r = acquire("{\"success\":true}", 1000);
    assert!(matches!(r, Err(AuthError::MalformedReply)));
}

#[test]
fn acquire_empty_data_is_empty_token_list() {
    let r = acquire("{\"success\":true,\"data\":[]}", 1000);
    assert!(matches!(r, Err(AuthError::EmptyTokenList)));
}

#[test]
fn acquire_unparseable_body_is_malformed() {
    let r = acquire("not json at all", 1000);
    assert!(matches!(r, Err(AuthError::MalformedReply)));
}

#[test]
fn acquire_missing_refresh_token_is_malformed() {
    let body = "{\"success\":true,\"data\":[{\"token_type\":\"bearer\",\"access_token\":\"a\",\"expires_in\":10}]}";
    let r = acquire(body, 1000);
    assert!(matches!(r, Err(AuthError::MalformedReply)));
}

#[test]
fn acquire_fractional_expiry_is_malformed() {
    let body = "{\"success\":true,\"data\":[{\"token_type\":\"bearer\",\"access_token\":\"a\",\"expires_in\":3600.5,\"refresh_token\":\"r\"}]}";
    let r = acquire(body, 1000);
    assert!(matches!(r, Err(AuthError::MalformedReply)));
}

#[test]
fn acquire_missing_success_is_malformed() {
    let body = "{\"data\":[{\"token_type\":\"bearer\",\"access_token\":\"a\",\"expires_in\":10,\"refresh_token\":\"r\"}]}";
    let r = acquire(body, 1000);
    assert!(matches!(r, Err(AuthError::MalformedReply)));
}

#[test]
fn acquire_non_boolean_success_is_malformed() {
    let body = "{\"success\":\"yes\",\"data\":[{\"token_type\":\"bearer\",\"access_token\":\"a\",\"expires_in\":10,\"refresh_token\":\"r\"}]}";
    let r = acquire(body, 1000);
    assert!(matches!(r, Err(AuthError::MalformedReply)));
}

#[test]
fn acquire_with_false_success_still_returns_token() {
    let body = "{\"success\":false,\"data\":[{\"token_type\":\"bearer\",\"access_token\":\"a\",\"expires_in\":10,\"refresh_token\":\"r\"}]}";
    let tok = acquire(body, 1000).unwrap();
    assert_eq!(tok.expires_at, 1010);
}

#[test]
fn acquire_malformed_second_entry_is_malformed() {
    let body = "{\"success\":true,\"data\":[{\"token_type\":\"bearer\",\"access_token\":\"a\",\"expires_in\":10,\"refresh_token\":\"r\"},{\"token_type\":\"bearer\"}]}";
    let r = acquire(body, 1000);
    assert!(matches!(r, Err(AuthError::MalformedReply)));
}

#[test]
fn resolve_user_id_reads_claim() {
    let tok = token_with_claims("{\"user_id\": 42}");
    assert_eq!(resolve_user_id(&tok).unwrap(), 42);
}

#[test]
fn resolve_user_id_is_idempotent() {
    let tok = token_with_claims("{\"user_id\": 42}");
    let first = resolve_user_id(&tok).unwrap();
    let second = resolve_user_id(&tok).unwrap();
    assert_eq!(first, second);
}

#[test]
fn resolve_user_id_empty_claims_is_invalid_json() {
    let tok = AccessToken {
        access_token: "header..sig".to_string(),
        refresh_token: String::new(),
        expires_at: 0,
    };
    assert!(matches!(resolve_user_id(&tok), Err(ClaimError::InvalidJson)));
}

#[test]
fn resolve_user_id_missing_claim() {
    let tok = token_with_claims("{\"other\": 1}");
    assert!(matches!(resolve_user_id(&tok), Err(ClaimError::MissingClaim)));
}

#[test]
fn resolve_user_id_fractional_claim_is_missing() {
    let tok = token_with_claims("{\"user_id\": 4.5}");
    assert!(matches!(resolve_user_id(&tok), Err(ClaimError::MissingClaim)));
}

#[test]
fn resolve_user_id_bad_base64() {
    let tok = AccessToken {
        access_token: "header.!!!.sig".to_string(),
        refresh_token: String::new(),
        expires_at: 0,
    };
    assert!(matches!(resolve_user_id(&tok), Err(ClaimError::DecodeFailure)));
}

#[test]
fn resolve_user_id_without_dot_is_malformed_token() {
    let tok = AccessToken {
        access_token: "nodotshere".to_string(),
        refresh_token: String::new(),
        expires_at: 0,
    };
    assert!(matches!(resolve_user_id(&tok), Err(ClaimError::MalformedToken)));
}

#[test]
fn resolve_device_picks_sole_reader() {
    let body = "{\"data\":[{\"id\":\"a\",\"type\":1},{\"id\":\"b\",\"type\":2},{\"id\":\"c\",\"type\":3}]}";
    assert_eq!(resolve_device(body).unwrap(), "b");
}

#[test]
fn resolve_device_no_reader() {
    let body = "{\"data\":[{\"id\":\"a\",\"type\":1},{\"id\":\"c\",\"type\":3}]}";
    assert!(matches!(resolve_device(body), Err(DeviceError::NoReaderDevice)));
}

#[test]
fn resolve_device_ambiguous() {
    let body = "{\"data\":[{\"id\":\"a\",\"type\":2},{\"id\":\"b\",\"type\":2}]}";
    assert!(matches!(resolve_device(body), Err(DeviceError::AmbiguousDevice)));
}

#[test]
fn resolve_device_missing_list_is_malformed() {
    assert!(matches!(resolve_device("{\"nodata\":1}"), Err(DeviceError::MalformedReply)));
}

#[test]
fn resolve_device_string_type_is_not_reader() {
    let body = "{\"data\":[{\"id\":\"a\",\"type\":\"2\"}]}";
    assert!(matches!(resolve_device(body), Err(DeviceError::NoReaderDevice)));
}

#[test]
fn resolve_device_reader_without_id_is_malformed() {
    let body = "{\"data\":[{\"type\":2}]}";
    assert!(matches!(resolve_device(body), Err(DeviceError::MalformedReply)));
}

#[test]
fn five_minute_window_request_body() {
    let now = LocalDateTime { year: 2024, month: 1, day: 1, hour: 0, minute: 2, second: 30 };
    let w = time_window(&now, 5);
    assert_eq!(w.until, now);
    assert_eq!(
        w.since,
        LocalDateTime { year: 2023, month: 12, day: 31, hour: 23, minute: 57, second: 30 },
    );
    let body = build_usage_request("MIN", &w, "req-id");
    let text = String::from_utf8(body).unwrap();
    assert_eq!(
        text,
        "{\"queries\":[{\"bucket\":\"MIN\",\"since_datetime\":\"2023-12-31 23:57:30\",\"until_datetime\":\"2024-01-01 00:02:30\",\"request_id\":\"req-id\"}]}",
    );
}

#[test]
fn window_crosses_leap_day() {
    let now = LocalDateTime { year: 2024, month: 3, day: 1, hour: 0, minute: 0, second: 0 };
    let w = time_window(&now, 1);
    assert_eq!(
        w.since,
        LocalDateTime { year: 2024, month: 2, day: 29, hour: 23, minute: 59, second: 0 },
    );
}

#[test]
fn window_zero_lookback() {
    let now = LocalDateTime { year: 2024, month: 6, day: 15, hour: 12, minute: 0, second: 0 };
    let w = time_window(&now, 0);
    assert_eq!(w.since, now);
    assert_eq!(w.until, now);
}

#[test]
fn usage_reply_round_trip_keeps_order() {
    let body = "{\"data\":[{\"req-id\":[{\"datetime\":\"2024-01-01 00:00:00\",\"value\":1.5},{\"datetime\":\"2024-01-01 00:01:00\",\"value\":2.0}]}]}";
    let samples = parse_usage_reply(body, &"req-id".to_string()).unwrap();
    assert_eq!(samples.len(), 2);
    assert_eq!(samples[0].timestamp, "2024-01-01 00:00:00");
    assert_eq!(samples[0].value_text, "1.5");
    assert_eq!(samples[1].timestamp, "2024-01-01 00:01:00");
    assert_eq!(samples[1].value_text, "2.0");
}

#[test]
fn usage_reply_integer_value_text() {
    let body = "{\"data\":[{\"q\":[{\"datetime\":\"2024-01-01 00:00:00\",\"value\":3}]}]}";
    let samples = parse_usage_reply(body, &"q".to_string()).unwrap();
    assert_eq!(samples[0].value_text, "3");
}

#[test]
fn usage_reply_empty_result_is_zero_sample_success() {
    let body = "{\"data\":[{\"req-id\":[]}]}";
    let samples = parse_usage_reply(body, &"req-id".to_string()).unwrap();
    assert_eq!(samples.len(), 0);
}

#[test]
fn usage_reply_missing_request_id() {
    let body = "{\"data\":[{\"other\":[]}]}";
    let r = parse_usage_reply(body, &"req-id".to_string());
    assert!(matches!(r, Err(QueryError::MalformedReply)));
}

#[test]
fn usage_reply_entry_without_value() {
    let body = "{\"data\":[{\"req-id\":[{\"datetime\":\"2024-01-01 00:00:00\"}]}]}";
    let r = parse_usage_reply(body, &"req-id".to_string());
    assert!(matches!(r, Err(QueryError::MalformedSample)));
}

#[test]
fn usage_reply_string_value_is_malformed_sample() {
    let body = "{\"data\":[{\"req-id\":[{\"datetime\":\"2024-01-01 00:00:00\",\"value\":\"x\"}]}]}";
    let r = parse_usage_reply(body, &"req-id".to_string());
    assert!(matches!(r, Err(QueryError::MalformedSample)));
}

#[test]
fn login_request_copies_and_escapes_fields() {
    let cred = Credential {
        username: "user".to_string(),
        password: "p\nw".to_string(),
        client_id: "ci".to_string(),
        client_secret: "c\\s".to_string(),
    };
    let payload = cred_to_login(&cred);
    assert_eq!(payload.grant_type, "password");
    assert_eq!(payload.client_id, "ci");
    assert_eq!(payload.client_secret, "c\\s");
    assert_eq!(payload.username, "user");
    assert_eq!(payload.password, "p\nw");
    let body = build_login_request(&payload);
    let text = String::from_utf8(body).unwrap();
    assert_eq!(
        text,
        "{\"grant_type\":\"password\",\"client_id\":\"ci\",\"client_secret\":\"c\\\\s\",\"username\":\"user\",\"password\":\"p\\u000aw\"}",
    );
}

#[test]
fn login_request_escapes_quotes() {
    let cred = Credential {
        username: "u\"ser".to_string(),
        password: "pw".to_string(),
        client_id: "ci".to_string(),
        client_secret: "cs".to_string(),
    };
    let body = build_login_request(&cred_to_login(&cred));
    let text = String::from_utf8(body).unwrap();
    assert!(text.contains("\"username\":\"u\\\"ser\""));
}

#[test]
fn token_expiry_boundary() {
    let tok = AccessToken {
        access_token: String::new(),
        refresh_token: String::new(),
        expires_at: 100,
    };
    assert!(!tok.is_expired(99));
    assert!(tok.is_expired(100));
    assert!(tok.is_expired(101));
}

#[test]
fn flume_error_message_text() {
    assert_eq!(FlumeError::MissingClaimError.message(), "Missing Required Claim in JWT Error");
}
