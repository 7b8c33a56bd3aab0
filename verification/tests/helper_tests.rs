//! Tests for the base URL and the header plan.

use crates_io_api::helper::base_url;
use crates_io_api::helper::registry_token_env_key;
use crates_io_api::helper::setup_headers;
use crates_io_api::types::Registry;

#[test]
fn test_base_url_default() {
    assert_eq!(base_url(None), "https://crates.io/api/v1/");
}

#[test]
fn test_base_url_private() {
    let reg = &Registry {
        url: "https://crates.foobar.com/api/v1/".to_string(),
        name: None,
        token: None,
    };
    assert_eq!(base_url(Some(reg)), "https://crates.foobar.com/api/v1/");
}

#[test]
fn test_crates_io_headers() {
    let user_agent = "crates-io-api-continuous-integration (github.com/theduke/crates-io-api)";
    let headers = setup_headers(user_agent, None, None).unwrap();
    assert_eq!(headers.user_agent, user_agent);
    assert!(headers.authorization.is_none());
}

#[test]
fn test_private_registry_name_headers() {
    let reg = &Registry {
        url: "https://crates.foobar.com/api/v1/".to_string(),
        name: Some("foobar".to_string()),
        token: None,
    };
    assert_eq!(
        registry_token_env_key("foobar"),
        "CARGO_REGISTRIES_FOOBAR_TOKEN"
    );
    let user_agent = "crates-io-api-continuous-integration (github.com/theduke/crates-io-api)";
    let headers = setup_headers(user_agent, Some(reg), Some("baz".to_string())).unwrap();
    assert_eq!(headers.user_agent, user_agent);
    assert_eq!(headers.authorization.as_deref(), Some("baz"));
}

#[test]
fn test_private_registry_token_headers() {
    let reg = &Registry {
        url: "https://crates.foobar.com/api/v1/".to_string(),
        name: None,
        token: Some("foobar".to_string()),
    };
    // The environment variable may be set, but an unnamed registry never
    // consults it: the configured token wins.
    let user_agent = "crates-io-api-continuous-integration (github.com/theduke/crates-io-api)";
    let headers = setup_headers(user_agent, Some(reg), Some("baz".to_string())).unwrap();
    assert_eq!(headers.user_agent, user_agent);
    assert_eq!(headers.authorization.as_deref(), Some("foobar"));
}

#[test]
fn named_registry_without_env_token_sends_no_auth() {
    let reg = &Registry {
        url: "https://crates.foobar.com/api/v1/".to_string(),
        name: Some("foobar".to_string()),
        token: Some("ignored".to_string()),
    };
    let headers = setup_headers("bot (bot@example.com)", Some(reg), None).unwrap();
    assert!(headers.authorization.is_none());
}

#[test]
fn invalid_user_agent_is_rejected_at_construction() {
    let err = setup_headers("bad\nagent", None, None).unwrap_err();
    assert_eq!(err.value, "bad\nagent");
}

#[test]
fn invalid_token_is_rejected_at_construction() {
    let reg = &Registry {
        url: "https://crates.foobar.com/api/v1/".to_string(),
        name: None,
        token: Some("bad\u{7f}token".to_string()),
    };
    let err = setup_headers("bot (bot@example.com)", Some(reg), None).unwrap_err();
    assert_eq!(err.value, "bad\u{7f}token");
}

#[test]
fn env_key_uppercases_mixed_case_names() {
    assert_eq!(
        registry_token_env_key("fooBar-9"),
        "CARGO_REGISTRIES_FOOBAR-9_TOKEN"
    );
}
