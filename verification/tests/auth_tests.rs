use mcp_server_core::authgate::AuthConfig;
use mcp_server_core::authgate::BearerOutcome;
use mcp_server_core::authgate::RequestHeader;
use mcp_server_core::authgate::bearer_gate;
use mcp_server_core::authgate::parse_bearer;
use mcp_server_core::authgate::tenant_decision;
use mcp_server_core::authgate::tenant_gate_config;
use mcp_server_core::authgate::tenant_request_allowed;

fn test_config() -> AuthConfig {
    AuthConfig {
        servers: vec!["http://localhost:1234".to_string()],
        audiences: vec!["test-audience".to_string()],
        resource: "http://localhost:4000".to_string(),
        resource_documentation: None,
        scopes: vec!["read".to_string()],
        disable_auth_token_passthrough: false,
    }
}

fn header(name: &str, value: &str) -> RequestHeader {
    RequestHeader {
        name: name.to_string(),
        value: Some(value.to_string()),
    }
}

#[test]
fn missing_token_returns_unauthorized() {
    let config = test_config();
    let parsed = parse_bearer(None);
    assert!(parsed.is_none());
    match bearer_gate(&config, None) {
        BearerOutcome::Unauthorized { challenge } => {
            assert_eq!(challenge.resource, "http://localhost:4000");
            assert_eq!(
                challenge.metadata_path,
                "/.well-known/oauth-protected-resource"
            );
        }
        BearerOutcome::Proceed { .. } => panic!("a request without a token must be rejected"),
    }
}

#[test]
fn invalid_token_returns_unauthorized() {
    let config = test_config();
    let parsed = parse_bearer(Some("Bearer invalidtoken"));
    assert_eq!(parsed, Some("invalidtoken".to_string()));
    // The external verifier rejects the token, so nothing validated comes
    // back; the outcome is the same challenge as for a missing token.
    match bearer_gate(&config, None) {
        BearerOutcome::Unauthorized { challenge } => {
            assert_eq!(challenge.resource, "http://localhost:4000");
            assert_eq!(
                challenge.metadata_path,
                "/.well-known/oauth-protected-resource"
            );
        }
        BearerOutcome::Proceed { .. } => panic!("an unverified token must be rejected"),
    }
}

#[test]
fn auth_missing_token_returns_unauthorized() {
    let config = test_config();
    match bearer_gate(&config, None) {
        BearerOutcome::Unauthorized { challenge } => {
            assert_eq!(
                challenge.metadata_path,
                "/.well-known/oauth-protected-resource"
            );
        }
        BearerOutcome::Proceed { .. } => panic!("a request without a token must be rejected"),
    }
}

#[test]
fn auth_invalid_token_returns_unauthorized() {
    let config = test_config();
    assert!(parse_bearer(Some("NotBearer stuff")).is_none());
    match bearer_gate(&config, None) {
        BearerOutcome::Unauthorized { challenge } => {
            assert_eq!(
                challenge.metadata_path,
                "/.well-known/oauth-protected-resource"
            );
        }
        BearerOutcome::Proceed { .. } => panic!("an unverified token must be rejected"),
    }
}

#[test]
fn bearer_parsing_takes_exactly_the_text_after_the_scheme() {
    assert_eq!(parse_bearer(Some("Bearer abc")), Some("abc".to_string()));
    assert_eq!(parse_bearer(Some("Bearer ")), Some("".to_string()));
    assert_eq!(parse_bearer(Some("Bearer")), None);
    assert_eq!(parse_bearer(Some("bearer abc")), None);
    assert_eq!(parse_bearer(Some("Basic abc")), None);
}

#[test]
fn verified_token_travels_with_the_request() {
    let config = test_config();
    match bearer_gate(&config, Some("Bearer goodtoken")) {
        BearerOutcome::Proceed { token_header } => assert_eq!(token_header, "Bearer goodtoken"),
        BearerOutcome::Unauthorized { .. } => panic!("a verified token must proceed"),
    }
}

#[test]
fn customer_id_matching_returns_ok() {
    let expected = "TestCustomer123".to_string();
    let headers = vec![header("X-Company-ID", &expected)];
    assert!(tenant_request_allowed(Some(&expected), &headers));
}

#[test]
fn customer_id_mismatch_returns_unauthorized() {
    let headers = vec![header("X-Company-ID", "WrongCustomer")];
    assert!(!tenant_request_allowed(Some("TestCustomer123"), &headers));
}

#[test]
fn missing_customer_id_header_returns_unauthorized() {
    let headers: Vec<RequestHeader> = vec![];
    assert!(!tenant_request_allowed(Some("TestCustomer123"), &headers));
}

#[test]
fn customer_id_case_sensitive_comparison() {
    let lower = vec![header("X-Company-ID", "testcustomer123")];
    assert!(!tenant_request_allowed(Some("TestCustomer123"), &lower));

    let exact = vec![header("X-Company-ID", "TestCustomer123")];
    assert!(tenant_request_allowed(Some("TestCustomer123"), &exact));
}

#[test]
fn customer_id_header_case_insensitive_name() {
    let headers = vec![header("x-company-id", "TestCustomer123")];
    assert!(tenant_request_allowed(Some("TestCustomer123"), &headers));
}

#[test]
fn empty_customer_id_header_returns_unauthorized() {
    let headers = vec![header("X-Company-ID", "")];
    assert!(!tenant_request_allowed(Some("TestCustomer123"), &headers));
}

#[test]
fn enable_customer_id_validation_with_env_var() {
    assert_eq!(
        tenant_gate_config(Some("TestCustomer123")),
        Some("TestCustomer123".to_string())
    );
    let matching = vec![header("X-Company-ID", "TestCustomer123")];
    assert!(tenant_request_allowed(Some("TestCustomer123"), &matching));
    let mismatched = vec![header("X-Company-ID", "WrongCustomer")];
    assert!(!tenant_request_allowed(
        Some("TestCustomer123"),
        &mismatched
    ));
}

#[test]
fn enable_customer_id_validation_without_env_var() {
    assert_eq!(tenant_gate_config(None), None);
    let headers: Vec<RequestHeader> = vec![];
    assert!(tenant_request_allowed(None, &headers));
}

#[test]
fn enable_customer_id_validation_with_empty_env_var() {
    assert_eq!(tenant_gate_config(Some("")), None);
    let headers: Vec<RequestHeader> = vec![];
    assert!(tenant_request_allowed(Some(""), &headers));
}

#[test]
fn non_utf8_tenant_header_is_rejected() {
    let bad = RequestHeader {
        name: "X-Company-ID".to_string(),
        value: None,
    };
    assert!(!tenant_decision("TestCustomer123", Some(&bad.value)));
    let headers = vec![bad];
    assert!(!tenant_request_allowed(Some("TestCustomer123"), &headers));
}
