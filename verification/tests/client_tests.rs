use linktor::client::LinktorClientBuilder;
use linktor::credentials::{select_auth, AuthChoice, CredentialStore};
use linktor::errors::LinktorError;
use linktor::headers::HeaderMap;

#[test]
fn builder_applies_defaults() {
    let cfg = LinktorClientBuilder::new().build();
    assert_eq!(cfg.base_url, "https://api.linktor.io");
    assert_eq!(cfg.timeout_secs, 30);
    assert_eq!(cfg.max_retries, 3);
    assert!(cfg.api_key.is_none());
    assert!(cfg.access_token.is_none());
}

#[test]
fn builder_keeps_explicit_settings() {
    let cfg = LinktorClientBuilder::new()
        .base_url("https://example.test")
        .api_key("key_1")
        .access_token("tok_1")
        .timeout(5)
        .max_retries(7)
        .build();
    assert_eq!(cfg.base_url, "https://example.test");
    assert_eq!(cfg.api_key.as_deref(), Some("key_1"));
    assert_eq!(cfg.access_token.as_deref(), Some("tok_1"));
    assert_eq!(cfg.timeout_secs, 5);
    assert_eq!(cfg.max_retries, 7);
}

#[test]
fn builder_trims_trailing_slashes() {
    let cfg = LinktorClientBuilder::new().base_url("https://example.test///").build();
    assert_eq!(cfg.base_url, "https://example.test");
    let cfg = LinktorClientBuilder::new().base_url("https://example.test/").build();
    assert_eq!(cfg.base_url, "https://example.test");
}

#[test]
fn request_url_joins_base_and_path() {
    assert_eq!(
        linktor::client::request_url("https://api.linktor.io", "/conversations"),
        "https://api.linktor.io/conversations"
    );
}

#[test]
fn bearer_header_value_has_the_scheme() {
    assert_eq!(linktor::credentials::bearer_header_value("tok_1"), "Bearer tok_1");
}

#[test]
fn credential_store_replaces_wholesale() {
    let store = CredentialStore::new(None);
    assert!(store.read().is_none());
    store.replace(Some("tok_a".to_string()));
    assert_eq!(store.read().as_deref(), Some("tok_a"));
    store.replace(Some("tok_b".to_string()));
    assert_eq!(store.read().as_deref(), Some("tok_b"));
    store.replace(None);
    assert!(store.read().is_none());
}

#[test]
fn api_key_takes_precedence() {
    let key = Some("key_1".to_string());
    let bearer = Some("tok_1".to_string());
    assert_eq!(select_auth(&key, &bearer), AuthChoice::ApiKey("key_1".to_string()));
    assert_eq!(select_auth(&None, &bearer), AuthChoice::Bearer("tok_1".to_string()));
    assert_eq!(select_auth(&None, &None), AuthChoice::Anonymous);
}

#[test]
fn store_supplies_bearer_for_requests() {
    let store = CredentialStore::new(Some("tok_1".to_string()));
    assert_eq!(store.auth_for_request(&None), AuthChoice::Bearer("tok_1".to_string()));
    let key = Some("key_1".to_string());
    assert_eq!(store.auth_for_request(&key), AuthChoice::ApiKey("key_1".to_string()));
    store.replace(None);
    assert_eq!(store.auth_for_request(&None), AuthChoice::Anonymous);
}

#[test]
fn error_from_status_maps_the_taxonomy() {
    let e = LinktorError::from_status(401, "denied".to_string(), Some("req_9".to_string()));
    assert!(matches!(e, LinktorError::Authentication { .. }));
    assert_eq!(e.request_id(), Some("req_9"));
    let e = LinktorError::from_status(429, "slow down".to_string(), None);
    assert!(matches!(e, LinktorError::RateLimit { retry_after: 60, .. }));
    let e = LinktorError::from_status(204, "odd".to_string(), None);
    assert!(matches!(e, LinktorError::Unknown { status_code: Some(204), .. }));
    assert_eq!(e.request_id(), None);
}

#[test]
fn header_map_insert_shadows_and_is_case_sensitive() {
    let mut headers = HeaderMap::new();
    headers.insert("X-Linktor-Signature", "first");
    headers.insert("X-Linktor-Signature", "second");
    assert_eq!(headers.get("X-Linktor-Signature").map(String::as_str), Some("second"));
    assert_eq!(headers.get("x-linktor-signature"), None);
    assert_eq!(headers.get("X-Linktor-Timestamp"), None);
}
