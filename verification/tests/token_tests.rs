use mcp_server_core::config_store::ConfigManager;
use mcp_server_core::errors::ERROR_CODE_INVALID_PARAMS;
use mcp_server_core::headers::HeaderList;
use mcp_server_core::token::TokenCheck;
use mcp_server_core::token::TokenManager;
use mcp_server_core::token::bearer_header_value;
use mcp_server_core::token::install_bearer_token;
use mcp_server_core::token::refresh_interval_secs;
use mcp_server_core::token::response_indicates_valid;
use mcp_server_core::token::token_safety_margin;

/// Test that token refresh stores token in memory
#[test]
fn test_token_refresh_stores_in_memory() {
    let _config_manager = ConfigManager::new("test_config.yaml".to_string());

    // Mock refresh URL (this would normally be a real endpoint)
    let refresh_url = "https://api.example.com/refresh";
    let refresh_token = "refresh_token_123";

    let token_manager =
        TokenManager::new(refresh_token.to_string(), refresh_url.to_string()).unwrap();

    // Initially no token in memory
    assert!(token_manager.access_token.is_none());
    assert!(token_manager.expires_at.is_none());

    assert_eq!(token_manager.refresh_token, refresh_token);
    assert_eq!(token_manager.refresh_url, refresh_url);
}

/// Test token manager creation with invalid parameters
#[test]
fn test_token_manager_creation_error() {
    // Test with empty refresh token
    let result = TokenManager::new(
        "".to_string(),
        "https://api.example.com/refresh".to_string(),
    );
    assert!(result.is_err());

    // Test with empty refresh URL
    let result = TokenManager::new("refresh_token".to_string(), "".to_string());
    assert!(result.is_err());
}

/// Test token expiry logic
#[test]
fn test_token_expiry_logic() {
    let refresh_url = "https://api.example.com/refresh";
    let refresh_token = "refresh_token_123";

    let mut token_manager =
        TokenManager::new(refresh_token.to_string(), refresh_url.to_string()).unwrap();

    // Set a token that expired an hour before the current clock reading
    let now: u64 = 10_000;
    token_manager.access_token = Some("test_token".to_string());
    token_manager.expires_at = Some(now - 3600);

    // Token should be considered expired
    if let Some(expires_at) = token_manager.expires_at {
        assert!(expires_at < now);
    }
    assert!(matches!(
        token_manager.check_cached(now),
        TokenCheck::NeedsRefresh
    ));
}

/// Test token manager clone
#[test]
fn test_token_manager_clone() {
    let refresh_url = "https://api.example.com/refresh";
    let refresh_token = "refresh_token_123";

    let mut token_manager =
        TokenManager::new(refresh_token.to_string(), refresh_url.to_string()).unwrap();
    token_manager.access_token = Some("test_token".to_string());
    token_manager.expires_at = Some(10_000 + 3600);

    let cloned_manager = token_manager.clone();

    assert_eq!(cloned_manager.refresh_token, token_manager.refresh_token);
    assert_eq!(cloned_manager.refresh_url, token_manager.refresh_url);
    assert_eq!(cloned_manager.access_token, token_manager.access_token);
    assert_eq!(cloned_manager.expires_at, token_manager.expires_at);
}

/// Test token manager integration
#[test]
fn test_token_manager_integration() {
    let refresh_token = "test_refresh_token";
    let refresh_url = "https://api.example.com/refresh";

    // Test creating token manager
    let token_manager = TokenManager::new(refresh_token.to_string(), refresh_url.to_string());
    assert!(token_manager.is_ok());

    let token_manager = token_manager.unwrap();
    assert_eq!(token_manager.refresh_token, refresh_token);
    assert_eq!(token_manager.refresh_url, refresh_url);
}

#[test]
fn blank_credentials_are_rejected_with_invalid_params() {
    let err = TokenManager::new("   ".to_string(), "https://api.example.com".to_string())
        .expect_err("a blank refresh token must be rejected");
    assert_eq!(err.code, ERROR_CODE_INVALID_PARAMS);
    assert_eq!(err.message, "Refresh token cannot be empty");

    let err = TokenManager::new("tok".to_string(), " \t ".to_string())
        .expect_err("a blank refresh URL must be rejected");
    assert_eq!(err.code, ERROR_CODE_INVALID_PARAMS);
    assert_eq!(err.message, "Refresh URL cannot be empty");
}

#[test]
fn cached_token_is_used_outside_the_safety_margin() {
    let mut m = TokenManager::new("tok".to_string(), "https://r".to_string()).unwrap();
    let now: u64 = 50_000;
    m.access_token = Some("cached".to_string());

    // Expiry more than the margin away: the cached token is handed out.
    m.expires_at = Some(now + token_safety_margin() + 1);
    match m.check_cached(now) {
        TokenCheck::UseCached(t) => assert_eq!(t, "cached"),
        TokenCheck::NeedsRefresh => panic!("a fresh token must be used from cache"),
    }

    // Expiry exactly at the margin: refresh.
    m.expires_at = Some(now + token_safety_margin());
    assert!(matches!(m.check_cached(now), TokenCheck::NeedsRefresh));

    // No expiry recorded: refresh.
    m.expires_at = None;
    assert!(matches!(m.check_cached(now), TokenCheck::NeedsRefresh));
}

#[test]
fn refresh_applies_the_stated_or_default_lifetime() {
    let mut m = TokenManager::new("tok".to_string(), "https://r".to_string()).unwrap();
    let now: u64 = 1_000;

    m.apply_refresh_success("first".to_string(), Some(120), now);
    assert_eq!(m.access_token, Some("first".to_string()));
    assert_eq!(m.expires_at, Some(now + 120));

    // Without a stated lifetime the default of one hour applies.
    m.apply_refresh_success("second".to_string(), None, now);
    assert_eq!(m.access_token, Some("second".to_string()));
    assert_eq!(m.expires_at, Some(now + 3600));

    // A second call within the safety margin finds the cache valid.
    match m.check_cached(now + 60) {
        TokenCheck::UseCached(t) => assert_eq!(t, "second"),
        TokenCheck::NeedsRefresh => panic!("the just-refreshed token must be reused"),
    }
}

#[test]
fn refreshed_token_lands_in_the_shared_headers() {
    let mut headers = HeaderList::new();
    headers.insert("content-type", "application/json");
    install_bearer_token(&mut headers, "fresh_token");
    assert_eq!(
        headers.get("authorization").map(|v| v.as_str()),
        Some("Bearer fresh_token")
    );
    assert_eq!(
        headers.get("content-type").map(|v| v.as_str()),
        Some("application/json")
    );
    assert_eq!(bearer_header_value("abc"), "Bearer abc");
}

#[test]
fn verification_looks_for_the_expected_field() {
    assert!(response_indicates_valid(
        "{\"data\":{\"company\":{\"name\":\"Acme\"}}}"
    ));
    assert!(!response_indicates_valid("{\"errors\":[{}]}"));
}

#[test]
fn background_interval_is_shorter_than_the_default_lifetime() {
    assert_eq!(refresh_interval_secs(), 3000);
    assert!(refresh_interval_secs() < 3600);
}
