use mcp_server_core::config_store::ConfigManager;
use mcp_server_core::config_store::extract_auth_token;
use mcp_server_core::config_store::rewrite_auth_token;

/// Test config file creation and reading
#[test]
fn test_config_file_operations() {
    let initial_config = r#"
endpoint: "https://api.example.com/graphql"
headers:
  Authorization: Bearer initial_token
  Content-Type: "application/json"
"#;

    let _config_manager = ConfigManager::new("test_config.yaml".to_string());

    // Test reading current token
    let token = extract_auth_token(initial_config);
    assert_eq!(token, Some("initial_token".to_string()));

    // Test updating token
    let updated = rewrite_auth_token(initial_config, "new_token");

    // Verify token was updated
    let updated_token = extract_auth_token(&updated);
    assert_eq!(updated_token, Some("new_token".to_string()));

    // Verify config content
    assert!(updated.contains("Authorization: Bearer new_token"));
}

/// Test config file token update
#[test]
fn test_config_token_update() {
    let initial_config = r#"
endpoint: "https://api.example.com/graphql"
headers:
  Authorization: Bearer old_token
"#;

    let updated_config = rewrite_auth_token(initial_config, "new_token");

    assert!(updated_config.contains("Authorization: Bearer new_token"));
    assert!(!updated_config.contains("old_token"));
}

#[test]
fn rewrite_preserves_indentation_and_other_lines() {
    let content = "endpoint: x\n    Authorization: Bearer abc\nother: y";
    let updated = rewrite_auth_token(content, "zzz");
    assert_eq!(updated, "endpoint: x\n    Authorization: Bearer zzz\nother: y");
}

#[test]
fn rewrite_touches_every_authorization_line() {
    let content = "Authorization: Bearer a\nmiddle\n\tAuthorization: Bearer b";
    let updated = rewrite_auth_token(content, "t");
    assert_eq!(updated, "Authorization: Bearer t\nmiddle\n\tAuthorization: Bearer t");
}

#[test]
fn rewrite_without_marker_keeps_lines() {
    let content = "a: 1\nb: 2";
    assert_eq!(rewrite_auth_token(content, "t"), "a: 1\nb: 2");
}

#[test]
fn rewrite_normalizes_line_endings_like_a_line_read() {
    // Lines are read the way a line-by-line reader sees them: a carriage
    // return before the line feed belongs to the line ending, and a final
    // line feed does not open a new line.
    let content = "a: 1\r\nAuthorization: Bearer x\r\n";
    assert_eq!(rewrite_auth_token(content, "y"), "a: 1\nAuthorization: Bearer y");
}

#[test]
fn extract_takes_the_first_authorization_line() {
    let content = "Authorization: Bearer first\nAuthorization: Bearer second";
    assert_eq!(extract_auth_token(content), Some("first".to_string()));
}

#[test]
fn extract_trims_the_token() {
    let content = "  Authorization: Bearer   spaced_token  ";
    assert_eq!(extract_auth_token(content), Some("spaced_token".to_string()));
}

#[test]
fn extract_without_authorization_line_yields_nothing() {
    assert_eq!(extract_auth_token("endpoint: x\nheaders: {}"), None);
}

#[test]
fn config_manager_keeps_its_path() {
    let cm = ConfigManager::new("/etc/mcp/config.yaml".to_string());
    assert_eq!(cm.config_path, "/etc/mcp/config.yaml");
}
