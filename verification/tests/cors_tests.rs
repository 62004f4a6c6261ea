use mcp_server_core::cors::CorsConfig;
use mcp_server_core::cors::CorsPlan;
use mcp_server_core::cors::OriginPolicy;
use mcp_server_core::errors::CorsError;

#[test]
fn test_default_config() {
    let config = CorsConfig::default();
    assert!(!config.enabled);
    assert!(!config.allow_any_origin);
    assert!(!config.allow_credentials);
    assert_eq!(
        config.allow_methods,
        vec!["GET".to_string(), "POST".to_string()]
    );
    assert_eq!(
        config.allow_headers,
        vec![
            "content-type".to_string(),
            "mcp-protocol-version".to_string(),
            "mcp-session-id".to_string(),
        ]
    );
    assert_eq!(config.max_age, Some(7200));
}

#[test]
fn test_disabled_cors_fails_to_build() {
    let config = CorsConfig::default();
    assert!(config.build_cors_layer().is_err());
}

#[test]
fn test_allow_any_origin_builds() {
    let config = CorsConfig {
        enabled: true,
        allow_any_origin: true,
        ..Default::default()
    };
    assert!(config.build_cors_layer().is_ok());
}

#[test]
fn test_specific_origins_build() {
    let config = CorsConfig {
        enabled: true,
        origins: vec![
            "http://localhost:3000".to_string(),
            "https://studio.apollographql.com".to_string(),
        ],
        ..Default::default()
    };
    assert!(config.build_cors_layer().is_ok());
}

#[test]
fn test_regex_origins_build() {
    let config = CorsConfig {
        enabled: true,
        match_origins: vec!["^http://localhost:[0-9]+$".to_string()],
        ..Default::default()
    };
    assert!(config.build_cors_layer().is_ok());
}

#[test]
fn test_credentials_with_any_origin_fails() {
    let config = CorsConfig {
        enabled: true,
        allow_any_origin: true,
        allow_credentials: true,
        ..Default::default()
    };
    assert!(config.build_cors_layer().is_err());
}

#[test]
fn test_no_origins_fails() {
    let config = CorsConfig {
        enabled: true,
        allow_any_origin: false,
        origins: vec![],
        match_origins: vec![],
        ..Default::default()
    };
    assert!(config.build_cors_layer().is_err());
}

#[test]
fn test_invalid_origin_fails() {
    let config = CorsConfig {
        enabled: true,
        origins: vec!["not-a-valid-url".to_string()],
        ..Default::default()
    };
    assert!(config.build_cors_layer().is_err());
}

#[test]
fn test_invalid_regex_fails() {
    let config = CorsConfig {
        enabled: true,
        match_origins: vec!["[invalid regex".to_string()],
        ..Default::default()
    };
    assert!(config.build_cors_layer().is_err());
}

#[test]
fn test_invalid_method_fails() {
    let config = CorsConfig {
        enabled: true,
        origins: vec!["http://localhost:3000".to_string()],
        allow_methods: vec!["invalid method with spaces".to_string()],
        ..Default::default()
    };
    assert!(config.build_cors_layer().is_err());
}

#[test]
fn cors_error_variants_name_the_broken_rule() {
    let disabled = CorsConfig::default();
    assert!(matches!(
        disabled.build_cors_layer(),
        Err(CorsError::NotEnabled)
    ));

    let creds = CorsConfig {
        enabled: true,
        allow_any_origin: true,
        allow_credentials: true,
        ..Default::default()
    };
    assert!(matches!(
        creds.build_cors_layer(),
        Err(CorsError::CredentialsWithAnyOrigin)
    ));

    let empty = CorsConfig {
        enabled: true,
        ..Default::default()
    };
    assert!(matches!(empty.build_cors_layer(), Err(CorsError::NoOrigins)));

    let bad_origin = CorsConfig {
        enabled: true,
        origins: vec!["not-a-valid-url".to_string()],
        ..Default::default()
    };
    match bad_origin.build_cors_layer() {
        Err(CorsError::InvalidOrigin(o)) => assert_eq!(o, "not-a-valid-url"),
        other => panic!("expected an invalid-origin error, got {:?}", other.is_ok()),
    }

    let bad_pattern = CorsConfig {
        enabled: true,
        match_origins: vec!["[invalid regex".to_string()],
        ..Default::default()
    };
    match bad_pattern.build_cors_layer() {
        Err(CorsError::InvalidOriginPattern(p)) => assert_eq!(p, "[invalid regex"),
        other => panic!("expected an invalid-pattern error, got {:?}", other.is_ok()),
    }

    let bad_method = CorsConfig {
        enabled: true,
        origins: vec!["http://localhost:3000".to_string()],
        allow_methods: vec!["invalid method with spaces".to_string()],
        ..Default::default()
    };
    assert!(matches!(
        bad_method.build_cors_layer(),
        Err(CorsError::InvalidMethod(_))
    ));

    let bad_header = CorsConfig {
        enabled: true,
        origins: vec!["http://localhost:3000".to_string()],
        allow_headers: vec!["bad header name".to_string()],
        ..Default::default()
    };
    assert!(matches!(
        bad_header.build_cors_layer(),
        Err(CorsError::InvalidHeaderName(_))
    ));

    let bad_expose = CorsConfig {
        enabled: true,
        origins: vec!["http://localhost:3000".to_string()],
        expose_headers: vec!["bad header name".to_string()],
        ..Default::default()
    };
    assert!(matches!(
        bad_expose.build_cors_layer(),
        Err(CorsError::InvalidExposeHeaderName(_))
    ));
}

#[test]
fn plan_keeps_the_validated_configuration() {
    let config = CorsConfig {
        enabled: true,
        origins: vec!["http://localhost:3000".to_string()],
        allow_credentials: true,
        max_age: Some(3600),
        ..Default::default()
    };
    let plan: CorsPlan = config.build_cors_layer().expect("a consistent configuration");
    assert!(plan.allow_credentials);
    assert_eq!(plan.max_age, Some(3600));
    assert_eq!(plan.methods, vec!["GET".to_string(), "POST".to_string()]);
    match &plan.origin_policy {
        OriginPolicy::Exact(l) => assert_eq!(l, &vec!["http://localhost:3000".to_string()]),
        _ => panic!("expected the exact-origin policy"),
    }
}

#[test]
fn mixed_exact_and_regex_origins_decide_requests() {
    let config = CorsConfig {
        enabled: true,
        origins: vec!["http://localhost:3000".to_string()],
        match_origins: vec!["^https://.*\\.apollographql\\.com$".to_string()],
        ..Default::default()
    };
    let plan = config.build_cors_layer().expect("a consistent configuration");
    assert!(matches!(
        plan.origin_policy,
        OriginPolicy::Matched { .. }
    ));
    assert!(plan.allows_origin("http://localhost:3000"));
    assert!(plan.allows_origin("https://studio.apollographql.com"));
    assert!(!plan.allows_origin("https://blocked.com"));
    assert!(!plan.allows_origin("http://localhost:4000"));
}

#[test]
fn an_origin_that_is_a_url_but_not_a_header_value_fails_the_build() {
    // The URL parser percent-encodes the control character and accepts the
    // text; the header-value check refuses it, so the build reports the
    // origin.
    let config = CorsConfig {
        enabled: true,
        origins: vec!["http://example.com/\u{7f}".to_string()],
        ..Default::default()
    };
    assert!(matches!(
        config.build_cors_layer(),
        Err(CorsError::InvalidOrigin(_))
    ));
}

#[test]
fn any_origin_policy_allows_every_origin() {
    let config = CorsConfig {
        enabled: true,
        allow_any_origin: true,
        ..Default::default()
    };
    let plan = config.build_cors_layer().expect("a consistent configuration");
    assert!(plan.allows_origin("https://any-domain.com"));
}
