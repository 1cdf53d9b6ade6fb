use bgutil_ytdlp_pot_provider::internal::{
    ClientInfo, InnertubeContext, SessionData, TokenMinterEntry, TrustedResourceUrl, TrustedScript,
};
use bgutil_ytdlp_pot_provider::request::{
    Challenge, FlexibleBool, InvalidateRequest, InvalidationType, PotRequest,
    interpret_flexible_bool,
};
use bgutil_ytdlp_pot_provider::response::{
    ErrorResponse, MinterCacheResponse, PingResponse, PotResponse,
};
use bgutil_ytdlp_pot_provider::webpo_minter::{JsRuntimeHandle, WebPoMinter};
use bgutil_ytdlp_pot_provider::error::Error;

fn create_test_webpo_minter() -> WebPoMinter {
    WebPoMinter::new("test_callback".to_string(), JsRuntimeHandle::new_for_test())
}

#[test]
fn test_session_data_creation() {
    let now: i64 = 1_700_000_000;
    let expires_at = now + 6 * 3600;
    let session = SessionData::new("token456".to_string(), "binding789".to_string(), expires_at);

    assert_eq!(session.po_token, "token456");
    assert_eq!(session.content_binding, "binding789");
    assert!(!session.is_expired(now));
}

#[test]
fn test_session_data_expiration() {
    let now: i64 = 1_700_000_000;
    let past_time = now - 3600;
    let session = SessionData::new("token".to_string(), "binding".to_string(), past_time);

    assert!(session.is_expired(now));
    assert!(session.time_until_expiry(now) < 0);
}

#[test]
fn test_trusted_resource_url() {
    let url = TrustedResourceUrl::new("https://example.com");
    assert_eq!(url.url(), "https://example.com");
}

#[test]
fn test_trusted_script() {
    let script = TrustedScript::new("console.log('test')", "https://example.com/script.js");
    assert_eq!(script.script(), "console.log('test')");
    assert_eq!(script.url(), "https://example.com/script.js");
}

#[test]
fn test_token_minter_entry_creation_replacement() {
    let now: i64 = 1_700_000_000;
    let future_time = now + 3600;
    let test_minter = create_test_webpo_minter();

    let entry = TokenMinterEntry::new(
        future_time,
        "integrity_token".to_string(),
        3600,
        300,
        None,
        test_minter,
    );

    assert!(!entry.is_expired(now));
    assert_eq!(entry.integrity_token, "integrity_token");
}

#[test]
fn test_token_minter_entry_expiry_replacement() {
    let now: i64 = 1_700_000_000;
    let past_time = now - 3600;
    let test_minter = create_test_webpo_minter();

    let entry = TokenMinterEntry::new(past_time, "token".to_string(), 3600, 300, None, test_minter);

    assert!(entry.is_expired(now));
}

#[test]
fn test_token_minter_entry_creation() {
    let now: i64 = 1_700_000_000;
    let future_time = now + 3600;
    let test_minter = create_test_webpo_minter();
    let minter = TokenMinterEntry::new(
        future_time,
        "integrity_token_123".to_string(),
        3600,
        300,
        Some("websafe_token".to_string()),
        test_minter,
    );

    assert_eq!(minter.integrity_token, "integrity_token_123");
    assert_eq!(minter.estimated_ttl_secs, 3600);
    assert_eq!(minter.mint_refresh_threshold, 300);
    assert_eq!(minter.websafe_fallback_token, Some("websafe_token".to_string()));
    assert!(!minter.is_expired(now));
}

#[test]
fn test_token_minter_entry_expiration() {
    let now: i64 = 1_700_000_000;
    let past_time = now - 3600;
    let future_time = now + 3600;

    let expired_minter = TokenMinterEntry::new(
        past_time,
        "token".to_string(),
        3600,
        300,
        None,
        create_test_webpo_minter(),
    );
    let valid_minter = TokenMinterEntry::new(
        future_time,
        "token".to_string(),
        3600,
        300,
        None,
        create_test_webpo_minter(),
    );

    assert!(expired_minter.is_expired(now));
    assert!(expired_minter.time_until_expiry(now) < 0);
    assert!(!valid_minter.is_expired(now));
    assert!(valid_minter.time_until_expiry(now) > 0);
}

#[test]
fn test_expiry_boundary_instant() {
    // at the expiry instant itself every row still counts as live; it is
    // expired only strictly past that instant
    let at: i64 = 1_700_000_000;
    let session = SessionData::new("t".to_string(), "b".to_string(), at);
    assert!(!session.is_expired(at));
    assert!(session.is_expired(at + 1));
    assert_eq!(session.time_until_expiry(at), 0);

    let entry = TokenMinterEntry::new(at, "t".to_string(), 3600, 300, None, create_test_webpo_minter());
    assert!(!entry.is_expired(at));
    assert!(entry.is_expired(at + 1));

    let response = PotResponse::new("t".to_string(), "b".to_string(), at);
    assert!(!response.is_expired(at));
    assert!(response.is_expired(at + 1));
}

#[test]
fn test_client_info_builder() {
    let client = ClientInfo::new().with_remote_host("youtube.com").with_visitor_data("visitor123");

    assert_eq!(client.remote_host, Some("youtube.com".to_string()));
    assert_eq!(client.visitor_data, Some("visitor123".to_string()));
}

#[test]
fn test_innertube_context() {
    let client = ClientInfo::new().with_visitor_data("test_visitor");
    let context = InnertubeContext::new(client);

    assert_eq!(context.client.visitor_data, Some("test_visitor".to_string()));
}

#[test]
fn test_pot_request_default() {
    let request = PotRequest::default();
    assert_eq!(request.content_binding, None);
    assert_eq!(request.bypass_cache, Some(false));
    assert_eq!(request.disable_innertube, Some(false));
}

#[test]
fn test_pot_request_builder() {
    let request = PotRequest::new()
        .with_content_binding("test_video_id")
        .with_proxy("http://proxy:8080")
        .with_bypass_cache(true)
        .with_source_address("192.168.1.1")
        .with_disable_tls_verification(true)
        .with_challenge("test_challenge")
        .with_disable_innertube(true);

    assert_eq!(request.content_binding, Some("test_video_id".to_string()));
    assert_eq!(request.proxy, Some("http://proxy:8080".to_string()));
    assert_eq!(request.bypass_cache, Some(true));
    assert_eq!(request.source_address, Some("192.168.1.1".to_string()));
    assert_eq!(request.disable_tls_verification, Some(true));
    assert!(matches!(request.challenge, Some(Challenge::Text(_))));
    if let Some(Challenge::Text(s)) = request.challenge {
        assert_eq!(s, "test_challenge");
    }
    assert_eq!(request.disable_innertube, Some(true));
}

#[test]
fn test_build_pot_request() {
    let request = PotRequest::build_pot_request(
        Some("test_video_id"),
        Some("http://proxy:8080"),
        true,
        Some("192.168.1.100"),
        true,
    );

    assert_eq!(request.content_binding, Some("test_video_id".to_string()));
    assert_eq!(request.proxy, Some("http://proxy:8080".to_string()));
    assert_eq!(request.bypass_cache, Some(true));
    assert_eq!(request.source_address, Some("192.168.1.100".to_string()));
    assert_eq!(request.disable_tls_verification, Some(true));
    assert_eq!(request.disable_innertube, Some(true));
}

#[test]
fn test_invalidate_request_creation() {
    let cache_request = InvalidateRequest::caches();
    assert!(matches!(cache_request.invalidate_type, InvalidationType::Caches));

    let it_request = InvalidateRequest::integrity_token();
    assert!(matches!(it_request.invalidate_type, InvalidationType::IntegrityToken));
}

#[test]
fn test_pot_response_creation() {
    let now: i64 = 1_700_000_000;
    let expires_at = now + 6 * 3600;
    let response = PotResponse::new("test_token".to_string(), "test_binding".to_string(), expires_at);

    assert_eq!(response.po_token, "test_token");
    assert_eq!(response.content_binding, "test_binding");
    assert_eq!(response.expires_at, expires_at);
}

#[test]
fn test_pot_response_expiration() {
    let now: i64 = 1_700_000_000;
    let past_time = now - 3600;
    let future_time = now + 3600;

    let expired_response = PotResponse::new("token".to_string(), "binding".to_string(), past_time);
    let valid_response = PotResponse::new("token".to_string(), "binding".to_string(), future_time);

    assert!(expired_response.is_expired(now));
    assert!(!valid_response.is_expired(now));
}

#[test]
fn test_ping_response() {
    let response = PingResponse::new(3600, "1.0.0");
    assert_eq!(response.server_uptime, 3600);
    assert_eq!(response.version, "1.0.0");
}

#[test]
fn test_error_response() {
    let response = ErrorResponse::new("Test error");
    assert_eq!(response.error, "Test error");
}

#[test]
fn test_minter_cache_response() {
    let mut response = MinterCacheResponse::empty();
    assert!(response.is_empty());
    assert_eq!(response.len(), 0);

    response.add_key("cache_key_1");
    response.add_key("cache_key_2");

    assert!(!response.is_empty());
    assert_eq!(response.len(), 2);
    assert_eq!(response.cache_keys, vec!["cache_key_1", "cache_key_2"]);
}

#[test]
fn test_minter_cache_response_new() {
    let keys = vec!["key1".to_string(), "key2".to_string(), "key3".to_string()];
    let response = MinterCacheResponse::new(keys.clone());

    assert_eq!(response.cache_keys, keys);
    assert_eq!(response.len(), 3);
}

#[test]
fn test_flexible_bool_plain() {
    assert_eq!(interpret_flexible_bool(&FlexibleBool::Truth(true)).unwrap(), true);
    assert_eq!(interpret_flexible_bool(&FlexibleBool::Truth(false)).unwrap(), false);
}

#[test]
fn test_flexible_bool_integers() {
    assert_eq!(interpret_flexible_bool(&FlexibleBool::Integer(0)).unwrap(), false);
    assert_eq!(interpret_flexible_bool(&FlexibleBool::Integer(1)).unwrap(), true);
    assert_eq!(interpret_flexible_bool(&FlexibleBool::Integer(42)).unwrap(), true);
    assert_eq!(interpret_flexible_bool(&FlexibleBool::Integer(-1)).unwrap(), false);
}

#[test]
fn test_flexible_bool_strings() {
    assert_eq!(interpret_flexible_bool(&FlexibleBool::Text("true".to_string())).unwrap(), true);
    assert_eq!(interpret_flexible_bool(&FlexibleBool::Text("false".to_string())).unwrap(), false);
    assert_eq!(interpret_flexible_bool(&FlexibleBool::Text("1".to_string())).unwrap(), true);
    assert_eq!(interpret_flexible_bool(&FlexibleBool::Text("0".to_string())).unwrap(), false);
    assert_eq!(interpret_flexible_bool(&FlexibleBool::Text("TRUE".to_string())).unwrap(), true);
    assert_eq!(interpret_flexible_bool(&FlexibleBool::Text("FaLsE".to_string())).unwrap(), false);
    assert_eq!(interpret_flexible_bool(&FlexibleBool::Text("  true\t".to_string())).unwrap(), true);
}

#[test]
fn test_flexible_bool_rejected_strings() {
    assert!(matches!(
        interpret_flexible_bool(&FlexibleBool::Text("yes".to_string())),
        Err(Error::Config { .. })
    ));
    assert!(matches!(
        interpret_flexible_bool(&FlexibleBool::Text("".to_string())),
        Err(Error::Config { .. })
    ));
}
