use bgutil_ytdlp_pot_provider::config::{ConfigLoader, ServerArgs, Settings};
use bgutil_ytdlp_pot_provider::config::parse_decimal;
use bgutil_ytdlp_pot_provider::error::Error;

#[test]
fn test_load_defaults() {
    let loader = ConfigLoader::new();
    let settings = loader.from_env_only().unwrap();

    assert_eq!(settings.server.port, 4416);
    assert_eq!(settings.token.ttl_hours, 6);
}

#[test]
fn test_proxy_priority() {
    let mut settings = Settings::default();
    settings.network.https_proxy = Some("https://proxy1:8080".to_string());
    settings.network.http_proxy = Some("http://proxy2:8080".to_string());
    settings.network.all_proxy = Some("socks5://proxy3:1080".to_string());

    // HTTPS proxy should have highest priority
    assert_eq!(settings.get_proxy_url().unwrap(), "https://proxy1:8080");

    // Remove HTTPS proxy, HTTP should be next
    settings.network.https_proxy = None;
    assert_eq!(settings.get_proxy_url().unwrap(), "http://proxy2:8080");

    // Remove HTTP proxy, ALL_PROXY should be last
    settings.network.http_proxy = None;
    assert_eq!(settings.get_proxy_url().unwrap(), "socks5://proxy3:1080");
}

#[test]
fn test_default_settings() {
    let settings = Settings::default();
    assert_eq!(settings.server.host, "::");
    assert_eq!(settings.server.port, 4416);
    assert_eq!(settings.token.ttl_hours, 6);
    assert!(settings.token.enable_cache);
}

#[test]
fn test_settings_creation() {
    let settings = Settings::new();
    assert_eq!(settings.server.port, 4416);
}

#[test]
fn test_server_args_with_optional_values() {
    // Test ServerArgs with all None values
    let args = ServerArgs { port: None, host: None, verbose: false };
    assert!(args.port.is_none());
    assert!(args.host.is_none());
    assert!(!args.verbose);

    // Test ServerArgs with Some values
    let args = ServerArgs {
        port: Some(8080),
        host: Some("127.0.0.1".to_string()),
        verbose: true,
    };
    assert_eq!(args.port, Some(8080));
    assert_eq!(args.host, Some("127.0.0.1".to_string()));
    assert!(args.verbose);
}

#[test]
fn test_server_args_override_settings() {
    let args = ServerArgs {
        port: Some(8080),
        host: Some("0.0.0.0".to_string()),
        verbose: true,
    };
    let settings = args.apply_to(Settings::default());
    assert_eq!(settings.server.port, 8080);
    assert_eq!(settings.server.host, "0.0.0.0");
    assert!(settings.logging.verbose);
}

#[test]
fn test_env_overrides_applied() {
    let settings = Settings::default()
        .apply_env_overrides(Some("localhost"), Some("9000"), Some("24"))
        .unwrap();
    assert_eq!(settings.server.host, "localhost");
    assert_eq!(settings.server.port, 9000);
    assert_eq!(settings.token.ttl_hours, 24);
}

#[test]
fn test_env_overrides_invalid_port() {
    let result = Settings::default().apply_env_overrides(None, Some("70000"), None);
    assert!(matches!(result, Err(Error::Config { .. })));

    let result = Settings::default().apply_env_overrides(None, Some("80x"), None);
    assert!(matches!(result, Err(Error::Config { .. })));
}

#[test]
fn test_env_overrides_invalid_ttl() {
    let result = Settings::default().apply_env_overrides(None, None, Some("six"));
    assert!(matches!(result, Err(Error::Config { .. })));
}

#[test]
fn test_parse_decimal_values() {
    assert_eq!(parse_decimal("4416"), Some(4416));
    assert_eq!(parse_decimal("0"), Some(0));
    assert_eq!(parse_decimal("18446744073709551615"), Some(u64::MAX));
    assert_eq!(parse_decimal("18446744073709551616"), None);
    assert_eq!(parse_decimal(""), None);
    assert_eq!(parse_decimal("12a"), None);
    assert_eq!(parse_decimal("-3"), None);
}

#[test]
fn test_validate_rejects_zero_ttl() {
    let mut settings = Settings::default();
    settings.token.ttl_hours = 0;
    assert!(matches!(settings.validate(), Err(Error::Config { .. })));
    settings.token.ttl_hours = 1;
    assert!(settings.validate().is_ok());
}

#[test]
fn test_loader_prefers_file_settings() {
    let loader = ConfigLoader::new();
    let mut file_settings = Settings::default();
    file_settings.server.port = 8080;
    file_settings.token.ttl_hours = 12;
    let settings = loader.load(Some(file_settings)).unwrap();
    assert_eq!(settings.server.port, 8080);
    assert_eq!(settings.token.ttl_hours, 12);

    let settings = loader.load(None).unwrap();
    assert_eq!(settings.server.port, 4416);
}
