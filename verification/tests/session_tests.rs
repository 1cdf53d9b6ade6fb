use bgutil_ytdlp_pot_provider::botguard::{
    signal_refs_or_default, BotGuardClient, BotGuardManager, SnapshotArgs,
};
use bgutil_ytdlp_pot_provider::cache::SessionCache;
use bgutil_ytdlp_pot_provider::config::Settings;
use bgutil_ytdlp_pot_provider::error::{Error, SandboxError};
use bgutil_ytdlp_pot_provider::internal::SessionData;
use bgutil_ytdlp_pot_provider::manager::{ProxySpec, SessionManager, TokenFlow};
use bgutil_ytdlp_pot_provider::request::PotRequest;
use bgutil_ytdlp_pot_provider::rpc::Credential;
use bgutil_ytdlp_pot_provider::sandbox::{Sandbox, SandboxPhase};
use bgutil_ytdlp_pot_provider::webpo_minter::{
    accept_minted_token, finish_mint, JsRuntimeHandle, WebPoMinter,
};
use bgutil_ytdlp_pot_provider::format_error;

const NOW: i64 = 1_700_000_000;

fn test_credential() -> Credential {
    Credential {
        integrity_token: "aW50ZWdyaXR5".to_string(),
        estimated_ttl_secs: 3600,
        mint_refresh_threshold_secs: 1800,
        websafe_fallback_token: None,
    }
}

#[test]
fn test_js_runtime_handle_creation() {
    let handle = JsRuntimeHandle::new_for_test();
    assert!(handle.test_mode);
    assert!(!handle.real_execution_enabled);
    assert!(handle.is_initialized());
    assert!(!handle.can_execute_script());
}

#[test]
fn test_js_runtime_handle_simplified() {
    let handle = JsRuntimeHandle::new_simplified();
    assert!(!handle.test_mode);
    assert!(handle.real_execution_enabled);
    assert!(handle.is_initialized());
    assert!(handle.can_execute_script());
}

#[test]
fn test_js_runtime_handle_call_function_test_mode() {
    let handle = JsRuntimeHandle::new_for_test();
    let result = handle.call_function_with_bytes("test_function", &[1, 2, 3, 4]);

    assert!(result.is_ok());
    assert_eq!(result.unwrap(), vec![0x12, 0x34, 0x56, 0x78]);
}

#[test]
fn test_js_runtime_handle_call_function_without_engine() {
    let handle = JsRuntimeHandle::new_simplified();
    let result = handle.call_function_with_bytes("test_function", &[1, 2, 3, 4]);
    assert!(matches!(result, Err(Error::Sandbox(_))));
}

#[test]
fn test_webpo_minter_creation() {
    let handle = JsRuntimeHandle::new_for_test();
    let minter = WebPoMinter::new("test_callback".to_string(), handle);

    assert_eq!(minter.mint_callback_ref, "test_callback");
    assert!(minter.runtime_handle.test_mode);
}

#[test]
fn test_minter_mint_empty_identifier_fails() {
    let minter = WebPoMinter::new("cb".to_string(), JsRuntimeHandle::new_for_test());
    let result = minter.mint_websafe_string("");
    assert!(matches!(result, Err(Error::Session { .. })));

    let minter = WebPoMinter::new("cb".to_string(), JsRuntimeHandle::new_simplified());
    let result = minter.mint_websafe_string("");
    assert!(matches!(result, Err(Error::Session { .. })));
}

#[test]
fn test_minter_mint_test_mode_token() {
    let minter = WebPoMinter::new("cb".to_string(), JsRuntimeHandle::new_for_test());
    let token = minter.mint_websafe_string("video_id").unwrap();
    // the web-safe encoding of the fixed test engine output
    assert_eq!(token, "EjRWeA");
    assert!(!token.is_empty());

    let token2 = minter.generate_pot_token(b"video_id").unwrap();
    assert_eq!(token2, "EjRWeA");
}

#[test]
fn test_minter_create_empty_signal_refs_fails() {
    let result = WebPoMinter::create(
        &test_credential(),
        &Vec::new(),
        JsRuntimeHandle::new_for_test(),
    );
    assert!(matches!(result, Err(Error::Session { .. })));
}

#[test]
fn test_minter_create_binds_first_signal_ref() {
    let refs = vec!["getMinter".to_string(), "other".to_string()];
    let (minter, credential_bytes) =
        WebPoMinter::create(&test_credential(), &refs, JsRuntimeHandle::new_for_test()).unwrap();
    assert_eq!(minter.mint_callback_ref, "getMinter");
    assert_eq!(credential_bytes, b"integrity".to_vec());
}

#[test]
fn test_minter_create_rejects_bad_credential() {
    let mut credential = test_credential();
    credential.integrity_token = "not base64!".to_string();
    let refs = vec!["getMinter".to_string()];
    let result = WebPoMinter::create(&credential, &refs, JsRuntimeHandle::new_for_test());
    assert!(matches!(result, Err(Error::Session { .. })));
}

#[test]
fn test_finish_mint_rejects_empty_output() {
    assert!(matches!(finish_mint(&Vec::new()), Err(Error::Session { .. })));
    assert_eq!(finish_mint(&vec![0x12, 0x34, 0x56, 0x78]).unwrap(), "EjRWeA");
}

#[test]
fn test_signal_refs_fallback() {
    let refs = signal_refs_or_default(None);
    assert_eq!(refs, vec!["webPoMinter".to_string()]);

    let refs = signal_refs_or_default(Some(Vec::new()));
    assert_eq!(refs, vec!["webPoMinter".to_string()]);

    let refs = signal_refs_or_default(Some(vec!["a".to_string()]));
    assert_eq!(refs, vec!["a".to_string()]);
}

#[test]
fn test_botguard_client_creation() {
    let client = BotGuardClient::new(None, None);
    assert!(!client.is_initialized());
}

#[test]
fn test_botguard_client_with_config() {
    let client = BotGuardClient::new(
        Some("/tmp/test_snapshot.bin".to_string()),
        Some("Test User Agent".to_string()),
    );
    assert!(!client.is_initialized());
    assert!(!client.snapshot_save_allowed());
}

#[test]
fn test_generate_po_token_without_initialization() {
    let client = BotGuardClient::new(None, None);
    let result = client.prepare_mint("test_identifier");
    assert!(matches!(result, Err(Error::Sandbox(_))));
}

#[test]
fn test_botguard_lifecycle() {
    let mut client = BotGuardClient::new(Some("/tmp/snap.bin".to_string()), None);
    assert!(client.initialize().is_ok());
    assert!(client.is_initialized());
    assert!(client.snapshot_save_allowed());

    let job = client.prepare_mint("vid").unwrap();
    assert_eq!(job.identifier, "vid");
    assert_eq!(job.snapshot_path, Some("/tmp/snap.bin".to_string()));

    // expiry falls back to the fixed window when the engine exposes none
    let info = client.expiry_info(None, NOW).unwrap();
    assert_eq!(info, (NOW + 21600, 21600));
    assert!(!client.is_expired(Some(NOW + 21600), NOW));
    assert!(client.is_expired(Some(NOW), NOW));
    assert!(client.is_expired(None, NOW));
    assert_eq!(client.time_until_expiry(Some(NOW + 60), NOW), Some(60));
    assert_eq!(client.time_until_expiry(Some(NOW - 60), NOW), Some(0));
}

#[test]
fn test_botguard_manager_legacy_interface() {
    let manager = BotGuardManager::new();

    let (key, has_client) = manager.get_manager_info();
    assert_eq!(key, "legacy_manager");
    assert!(has_client);
}

#[test]
fn test_snapshot_args_creation() {
    let args = SnapshotArgs {
        content_binding: Some("test_video_id"),
        signed_timestamp: Some(1234567890),
        webpo_signal_output: Some("test_output"),
        skip_privacy_buffer: Some(false),
    };

    assert_eq!(args.content_binding, Some("test_video_id"));
    assert_eq!(args.signed_timestamp, Some(1234567890));
    assert_eq!(args.skip_privacy_buffer, Some(false));
}

#[test]
fn test_sandbox_lifecycle() {
    let mut sandbox = Sandbox::new();
    assert_eq!(sandbox.phase, SandboxPhase::Uninitialized);
    assert!(!sandbox.is_initialized());

    // before the program is loaded, no snapshot is possible
    assert!(matches!(
        sandbox.snapshot_signal_refs(None),
        Err(Error::Sandbox(SandboxError::NotInitialized))
    ));

    // a throwing interpreter leaves the sandbox uninitialized
    let mut failing = Sandbox::new();
    assert!(matches!(
        failing.initialize(false),
        Err(Error::Sandbox(SandboxError::ScriptFailure { .. }))
    ));
    assert_eq!(failing.phase, SandboxPhase::Uninitialized);

    sandbox.initialize(true).unwrap();
    assert_eq!(sandbox.phase, SandboxPhase::Loaded);
    assert!(sandbox.is_initialized());

    // an absent global is the missing-engine error
    assert!(matches!(
        sandbox.load_program("GlobalX".to_string(), false),
        Err(Error::Sandbox(SandboxError::VmNotFound))
    ));
    assert_eq!(sandbox.phase, SandboxPhase::Loaded);

    sandbox.load_program("GlobalX".to_string(), true).unwrap();
    assert_eq!(sandbox.phase, SandboxPhase::Ready);
    assert_eq!(sandbox.global_name, Some("GlobalX".to_string()));

    // a snapshot with signal names keeps them; an empty one falls back
    let refs = sandbox
        .snapshot_signal_refs(Some(vec!["getMinter".to_string()]))
        .unwrap();
    assert_eq!(refs, vec!["getMinter".to_string()]);
    let refs = sandbox.snapshot_signal_refs(None).unwrap();
    assert_eq!(refs, vec!["webPoMinter".to_string()]);
}

#[test]
fn test_session_manager_creation() {
    let mut manager = SessionManager::new(Settings::default());
    assert_eq!(manager.get_minter_cache_keys().unwrap().len(), 0);
    let caches = manager.get_session_data_caches(false, NOW);
    assert_eq!(caches.len(), 0);
    let (request_key, host) = manager.get_diagnostic_info();
    assert_eq!(request_key, "O43z0dpjhgX20SCx4KAo");
    assert_eq!(host, "::");
}

#[test]
fn test_token_caching() {
    // two non-bypassing calls with one content binding inside the TTL window
    // return byte-identical tokens and expiry
    let mut manager = SessionManager::new(Settings::default());
    let binding = "cached_video".to_string();

    assert!(manager.check_session_cache(&binding, false, NOW).is_none());
    let minted = manager.complete_mint(binding.clone(), "tok_abc".to_string(), NOW);
    assert_eq!(minted.content_binding, "cached_video");
    assert_eq!(minted.po_token, "tok_abc");
    assert!(minted.expires_at > NOW);

    let second = manager.check_session_cache(&binding, false, NOW + 60).unwrap();
    assert_eq!(second.po_token, minted.po_token);
    assert_eq!(second.expires_at, minted.expires_at);

    // after the TTL window the cached row is no longer returned
    assert!(manager.check_session_cache(&binding, false, minted.expires_at).is_none());
}

#[test]
fn test_bypass_cache() {
    // a bypassing call never short-circuits on the session cache
    let mut manager = SessionManager::new(Settings::default());
    let binding = "bypass_test".to_string();
    let _ = manager.complete_mint(binding.clone(), "tok_1".to_string(), NOW);

    assert!(manager.check_session_cache(&binding, false, NOW + 1).is_some());
    assert!(manager.check_session_cache(&binding, true, NOW + 1).is_none());
}

#[test]
fn test_generated_token_matches_request() {
    // every response carries the requested binding and a future expiry
    let mut manager = SessionManager::new(Settings::default());
    let response = manager.complete_mint("test_video_id".to_string(), "tok".to_string(), NOW);
    assert_eq!(response.content_binding, "test_video_id");
    assert!(response.expires_at > NOW);
    assert_eq!(response.expires_at, NOW + 6 * 3600);

    let cached = manager
        .check_session_cache(&"test_video_id".to_string(), false, NOW + 1)
        .unwrap();
    assert_eq!(cached.content_binding, "test_video_id");
    assert!(cached.expires_at > NOW + 1);
}

#[test]
fn test_invalidate_caches() {
    let mut manager = SessionManager::new(Settings::default());
    let binding = "test_invalidate".to_string();
    let _ = manager.complete_mint(binding.clone(), "tok".to_string(), NOW);
    let key = "proxy:host".to_string();
    let credential = test_credential();
    let minter = WebPoMinter::new("cb".to_string(), JsRuntimeHandle::new_for_test());
    let entry = manager.build_minter_entry(credential, minter, NOW);
    manager.store_minter(&key, entry);
    assert_eq!(manager.get_minter_cache_keys().unwrap().len(), 1);

    manager.invalidate_caches().unwrap();

    assert!(manager.check_session_cache(&binding, false, NOW).is_none());
    assert_eq!(manager.get_minter_cache_keys().unwrap(), Vec::<String>::new());
    assert_eq!(manager.get_session_data_caches(false, NOW).len(), 0);
}

#[test]
fn test_integrity_token_invalidation() {
    // the key set is preserved, and every entry reports as expired afterward
    let mut manager = SessionManager::new(Settings::default());
    let minter = WebPoMinter::new("cb".to_string(), JsRuntimeHandle::new_for_test());
    let entry = manager.build_minter_entry(test_credential(), minter, NOW);
    let key_a = "proxya:hosta".to_string();
    let key_b = "proxyb:hostb".to_string();
    manager.store_minter(&key_a, entry.duplicate());
    manager.store_minter(&key_b, entry);

    assert!(manager.get_cached_minter(&key_a, NOW).is_some());
    let mut keys_before = manager.get_minter_cache_keys().unwrap();
    keys_before.sort();

    manager.invalidate_integrity_tokens().unwrap();

    let mut keys_after = manager.get_minter_cache_keys().unwrap();
    keys_after.sort();
    assert_eq!(keys_before, keys_after);
    assert!(manager.get_cached_minter(&key_a, NOW).is_none());
    assert!(manager.get_cached_minter(&key_b, NOW).is_none());
}

#[test]
fn test_token_minter_cache() {
    let mut manager = SessionManager::new(Settings::default());
    let key = "p:h".to_string();
    assert!(manager.get_cached_minter(&key, NOW).is_none());

    let minter = WebPoMinter::new("cb".to_string(), JsRuntimeHandle::new_for_test());
    let entry = manager.build_minter_entry(test_credential(), minter, NOW);
    let expiry = entry.expiry;
    manager.store_minter(&key, entry);

    let live = manager.get_cached_minter(&key, NOW).unwrap();
    assert_eq!(live.integrity_token, "aW50ZWdyaXR5");
    assert_eq!(live.expiry, NOW + 6 * 3600);

    // at the expiry instant the minter still counts as live; strictly past
    // it, the cached minter is no longer returned
    assert!(manager.get_cached_minter(&key, expiry).is_some());
    assert!(manager.get_cached_minter(&key, expiry + 1).is_none());
}

#[test]
fn test_proxy_spec_creation() {
    let request = PotRequest::new()
        .with_content_binding("test_proxy")
        .with_proxy("http://proxy:8080")
        .with_source_address("192.168.1.1")
        .with_disable_tls_verification(true);

    let manager = SessionManager::new(Settings::default());
    let spec = manager.create_proxy_spec(&request, None);
    assert_eq!(spec.proxy, Some("http://proxy:8080".to_string()));
    assert_eq!(spec.source_address, Some("192.168.1.1".to_string()));
    assert!(spec.disable_tls_verification);

    // the environment proxy is used only when the request has none
    let spec = manager.create_proxy_spec(&PotRequest::new(), Some("http://env:1"));
    assert_eq!(spec.proxy, Some("http://env:1".to_string()));
    assert!(!spec.disable_tls_verification);
}

#[test]
fn test_cache_key_shape() {
    let spec = ProxySpec::new().with_proxy("http://proxy:8080");
    assert_eq!(spec.cache_key(Some("youtube.com")), "17:http://proxy:8080:youtube.com");
    assert_eq!(spec.cache_key(None), "17:http://proxy:8080:");
    assert_eq!(ProxySpec::new().cache_key(None), "0::");
}

#[test]
fn test_cache_key_distinguishes_identities() {
    // proxy "a:" with no host and proxy "a" with host ":" are different
    // egress identities; the length prefix keeps their keys apart
    let first = ProxySpec::new().with_proxy("a:").cache_key(None);
    let second = ProxySpec::new().with_proxy("a").cache_key(Some(":"));
    assert_eq!(first, "2:a::");
    assert_eq!(second, "1:a::");
    assert_ne!(first, second);
}

#[test]
fn test_cleanup_drops_only_expired_rows() {
    let mut manager = SessionManager::new(Settings::default());
    let _ = manager.complete_mint("old".to_string(), "tok_old".to_string(), NOW - 7 * 3600);
    let _ = manager.complete_mint("new".to_string(), "tok_new".to_string(), NOW);

    manager.cleanup_caches(NOW);

    assert!(manager.check_session_cache(&"old".to_string(), false, NOW).is_none());
    assert!(manager.check_session_cache(&"new".to_string(), false, NOW).is_some());
    assert_eq!(manager.get_session_data_caches(false, NOW).len(), 1);
}

#[test]
fn test_set_session_data_caches() {
    let mut manager = SessionManager::new(Settings::default());
    let mut cache = SessionCache::new();
    let data = SessionData::new("tok".to_string(), "vid".to_string(), NOW + 3600);
    cache.insert(&"vid".to_string(), data);
    manager.set_session_data_caches(cache);

    let hit = manager.check_session_cache(&"vid".to_string(), false, NOW).unwrap();
    assert_eq!(hit.po_token, "tok");
}

#[test]
fn test_validate_visitor_data() {
    let manager = SessionManager::new(Settings::default());
    assert!(matches!(
        manager.validate_visitor_data("".to_string()),
        Err(Error::VisitorData { .. })
    ));
    assert!(matches!(
        manager.validate_visitor_data("short".to_string()),
        Err(Error::VisitorData { .. })
    ));
    assert_eq!(
        manager.validate_visitor_data("CgtWaXNpdG9yRGF0YQ==".to_string()).unwrap(),
        "CgtWaXNpdG9yRGF0YQ=="
    );
}

#[test]
fn test_get_content_binding() {
    let manager = SessionManager::new(Settings::default());
    let request = PotRequest::new().with_content_binding("vid");
    assert_eq!(manager.get_content_binding(&request), Some("vid".to_string()));
    assert_eq!(manager.get_content_binding(&PotRequest::new()), None);
}

#[test]
fn test_initialize_botguard_and_prepare_mint() {
    let mut manager = SessionManager::new(Settings::default());
    assert!(matches!(manager.generate_po_token("vid"), Err(Error::Sandbox(_))));
    manager.initialize_botguard().unwrap();
    let job = manager.generate_po_token("vid").unwrap();
    assert_eq!(job.identifier, "vid");

    // an empty identifier never reaches the engine, even once initialized
    assert!(matches!(manager.generate_po_token(""), Err(Error::Session { .. })));
}

#[test]
fn test_prepare_mint_rejects_empty_identifier() {
    let mut client = BotGuardClient::new(None, None);
    client.initialize().unwrap();
    assert!(matches!(client.prepare_mint(""), Err(Error::Session { .. })));
    assert!(client.prepare_mint("vid").is_ok());
}

#[test]
fn test_accept_minted_token() {
    assert!(matches!(accept_minted_token("".to_string()), Err(Error::Session { .. })));
    assert_eq!(accept_minted_token("tok".to_string()).unwrap(), "tok");
}

#[test]
fn test_minter_entry_saturates_wide_counters() {
    let manager = SessionManager::new(Settings::default());
    let credential = Credential {
        integrity_token: "aW50ZWdyaXR5".to_string(),
        estimated_ttl_secs: u64::MAX,
        mint_refresh_threshold_secs: 1800,
        websafe_fallback_token: None,
    };
    let minter = WebPoMinter::new("cb".to_string(), JsRuntimeHandle::new_for_test());
    let entry = manager.build_minter_entry(credential, minter, NOW);
    assert_eq!(entry.estimated_ttl_secs, u32::MAX);
    assert_eq!(entry.mint_refresh_threshold, 1800);
}

#[test]
fn test_begin_pot_token_flow() {
    let mut manager = SessionManager::new(Settings::default());

    // without a binding the caller must fetch visitor data first
    let flow = manager.begin_pot_token(&PotRequest::new(), None, NOW);
    assert!(matches!(flow, TokenFlow::NeedsContentBinding));

    // a cold cache needs a fresh minter under the context key
    let request = PotRequest::new().with_content_binding("vid").with_proxy("http://p:1");
    match manager.begin_pot_token(&request, None, NOW) {
        TokenFlow::NeedsMinter { content_binding, cache_key } => {
            assert_eq!(content_binding, "vid");
            assert_eq!(cache_key, "10:http://p:1:");
        }
        other => panic!("expected a minter regeneration, got {:?}", other),
    }

    // a cached live minter is handed back
    let minter = WebPoMinter::new("cb".to_string(), JsRuntimeHandle::new_for_test());
    let entry = manager.build_minter_entry(test_credential(), minter, NOW);
    manager.store_minter(&"10:http://p:1:".to_string(), entry);
    match manager.begin_pot_token(&request, None, NOW) {
        TokenFlow::HasMinter { content_binding, cache_key, minter } => {
            assert_eq!(content_binding, "vid");
            assert_eq!(cache_key, "10:http://p:1:");
            assert_eq!(minter.integrity_token, "aW50ZWdyaXR5");
        }
        other => panic!("expected a live minter, got {:?}", other),
    }

    // a completed mint short-circuits the next run
    let minted = manager.complete_mint("vid".to_string(), "tok".to_string(), NOW);
    match manager.begin_pot_token(&request, None, NOW + 1) {
        TokenFlow::CachedToken(resp) => {
            assert_eq!(resp.po_token, "tok");
            assert_eq!(resp.expires_at, minted.expires_at);
        }
        other => panic!("expected the cached token, got {:?}", other),
    }

    // unless the cache is bypassed
    let bypassing = request.clone().with_bypass_cache(true);
    assert!(matches!(
        manager.begin_pot_token(&bypassing, None, NOW + 1),
        TokenFlow::HasMinter { .. }
    ));
}

#[test]
fn test_format_error_strings() {
    let e = Error::session("minting failed".to_string());
    assert_eq!(format_error(&e), "Session error: minting failed");
    assert_eq!(e.category(), "session");
    assert!(!e.is_retryable());

    let e = Error::network("timeout".to_string());
    assert_eq!(format_error(&e), "Network error: timeout");
    assert!(e.is_retryable());

    let e = Error::visitor_data("no visitor data".to_string());
    assert_eq!(format_error(&e), "Visitor data generation failed: no visitor data");

    let e = Error::challenge("download failed".to_string());
    assert_eq!(format_error(&e), "Challenge processing failed: download failed");
    assert_eq!(e.category(), "challenge");
}
