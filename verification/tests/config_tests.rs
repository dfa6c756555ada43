use vibede_core::config::authorize_root_of;
use vibede_core::config::normalize_domain;
use vibede_core::config::Auth0Config;
use vibede_core::request::build_authorize_url;
use vibede_core::request::build_logout_url;
use vibede_core::request::build_token_request;

fn config(domain: &str) -> Auth0Config {
    Auth0Config::with_defaults(domain.to_string(), "cid".to_string(), None, None, None)
}

#[test]
fn default_config_has_callback_and_scope() {
    let c = Auth0Config::default();
    assert_eq!(c.domain, "");
    assert_eq!(c.client_id, "");
    assert_eq!(c.callback_url, "vibede://callback");
    assert_eq!(c.audience, None);
    assert_eq!(c.scope, "openid profile email");
    assert!(!c.is_complete());
}

#[test]
fn with_defaults_keeps_what_is_given() {
    let c = Auth0Config::with_defaults(
        "d".to_string(),
        "c".to_string(),
        Some("app://back".to_string()),
        Some("aud".to_string()),
        Some("openid".to_string()),
    );
    assert_eq!(c.callback_url, "app://back");
    assert_eq!(c.audience, Some("aud".to_string()));
    assert_eq!(c.scope, "openid");
    assert!(c.is_complete());
}

#[test]
fn config_without_client_id_is_incomplete() {
    let c = Auth0Config::with_defaults("d".to_string(), String::new(), None, None, None);
    assert!(!c.is_complete());
    let c = Auth0Config::with_defaults(String::new(), "c".to_string(), None, None, None);
    assert!(!c.is_complete());
}

#[test]
fn bare_host_gets_https() {
    assert_eq!(normalize_domain("example.auth0.com"), "https://example.auth0.com");
    assert_eq!(authorize_root_of("example.auth0.com"), "https://example.auth0.com");
}

#[test]
fn api_segment_is_stripped_from_authorize_root() {
    assert_eq!(authorize_root_of("https://example.com/api/v2"), "https://example.com");
    assert_eq!(normalize_domain("https://example.com/api/v2"), "https://example.com/api/v2");
}

#[test]
fn trailing_slashes_are_stripped() {
    assert_eq!(normalize_domain("https://example.com/"), "https://example.com");
    assert_eq!(normalize_domain("https://example.com///"), "https://example.com");
    assert_eq!(normalize_domain("example.com/"), "https://example.com");
    assert_eq!(normalize_domain("http://example.com"), "http://example.com");
}

#[test]
fn api_segment_needs_both_slashes() {
    assert_eq!(authorize_root_of("https://example.com/api"), "https://example.com/api");
    assert_eq!(authorize_root_of("https://example.com/api/"), "https://example.com/api");
    assert_eq!(authorize_root_of("https://example.com/x/api/y/api/z"), "https://example.com/x");
}

#[test]
fn domain_edge_cases() {
    assert_eq!(normalize_domain(""), "https://");
    assert_eq!(normalize_domain("/"), "https://");
    assert_eq!(normalize_domain("httpx"), "httpx");
    assert_eq!(normalize_domain("htt"), "https://htt");
    assert_eq!(authorize_root_of("api/x"), "https:/");
    assert_eq!(normalize_domain("münchen.example"), "https://münchen.example");
}

#[test]
fn authorize_url_without_audience() {
    let url = build_authorize_url(&config("t.example.com"), "STATE", "CHALLENGE");
    assert_eq!(
        url,
        "https://t.example.com/authorize?response_type=code&client_id=cid\
         &redirect_uri=http%3A%2F%2Flocalhost%3A3000%2Fauth%2Fcallback\
         &scope=openid%20profile%20email&state=STATE&code_challenge=CHALLENGE\
         &code_challenge_method=S256"
    );
}

#[test]
fn authorize_url_with_audience() {
    let c = Auth0Config::with_defaults(
        "https://t.example.com/api/v2/".to_string(),
        "cid".to_string(),
        None,
        Some("https://api.example.com/ü".to_string()),
        Some("a-b_c.d~e f".to_string()),
    );
    let url = build_authorize_url(&c, "s", "c");
    assert_eq!(
        url,
        "https://t.example.com/authorize?response_type=code&client_id=cid\
         &redirect_uri=http%3A%2F%2Flocalhost%3A3000%2Fauth%2Fcallback\
         &scope=a-b_c.d~e%20f&state=s&code_challenge=c\
         &code_challenge_method=S256&audience=https%3A%2F%2Fapi.example.com%2F%C3%BC"
    );
}

#[test]
fn logout_url_uses_raw_domain_and_encoded_callback() {
    let url = build_logout_url(&config("t.example.com"));
    assert_eq!(
        url,
        "https://t.example.com/v2/logout?client_id=cid&returnTo=vibede%3A%2F%2Fcallback"
    );
}

#[test]
fn token_request_goes_to_the_origin() {
    let request = build_token_request(&config("https://t.example.com/api/v2/"), "CODE", "VERIFIER");
    assert_eq!(request.url, "https://t.example.com/api/v2/oauth/token");
    assert_eq!(request.grant_type, "authorization_code");
    assert_eq!(request.client_id, "cid");
    assert_eq!(request.code_verifier, "VERIFIER");
    assert_eq!(request.code, "CODE");
    assert_eq!(request.redirect_uri, "http://localhost:3000/auth/callback");
}
