use base64::Engine;
use vibede_core::config::Auth0Config;
use vibede_core::error::AuthError;
use vibede_core::pkce::generate_code_challenge;
use vibede_core::pkce::PkceSession;
use vibede_core::service::AuthService;
use vibede_core::service::AuthStateStore;
use vibede_core::session::AuthState;
use vibede_core::session::UserInfo;
use vibede_core::token::ExchangeReply;

fn jwt(payload: &str) -> String {
    let engine = base64::engine::general_purpose::URL_SAFE_NO_PAD;
    format!("{}.{}.sig", engine.encode("{}"), engine.encode(payload))
}

fn good_reply(subject: &str, expires_in: u64) -> ExchangeReply {
    ExchangeReply::Response {
        status: 200,
        body: format!(
            "{{\"access_token\":\"AT\",\"id_token\":\"{}\",\"expires_in\":{}}}",
            jwt(&format!("{{\"sub\":\"{}\",\"name\":\"A\",\"email\":\"a@x.com\"}}", subject)),
            expires_in
        ),
    }
}

fn configured() -> AuthService {
    let mut service = AuthService::new();
    service.initialize_config(Auth0Config::with_defaults(
        "t.example.com".to_string(),
        "cid".to_string(),
        None,
        None,
        None,
    ));
    service
}

fn session(state: &str, verifier: &str) -> PkceSession {
    PkceSession { state: state.to_string(), code_verifier: verifier.to_string() }
}

fn signed_in() -> AuthService {
    let mut service = configured();
    service.begin_login(session("S", "V")).unwrap();
    service.handle_callback("vibede://callback?code=C&state=S").unwrap();
    service.complete_exchange(good_reply("u1", 60), 100).unwrap();
    assert!(service.is_authenticated());
    service
}

fn query_value(url: &str, key: &str) -> String {
    let query = url.split('?').nth(1).unwrap();
    for pair in query.split('&') {
        let mut parts = pair.splitn(2, '=');
        if parts.next() == Some(key) {
            return parts.next().unwrap().to_string();
        }
    }
    panic!("no parameter {}", key);
}

#[test]
fn default_store_is_unauthenticated() {
    let store = AuthStateStore::default();
    assert_eq!(store.config, Auth0Config::default());
    assert_eq!(store.state, AuthState::default());
    assert!(!store.state.authenticated);
    assert_eq!(store.state.access_token, None);
    assert_eq!(store.state.id_token, None);
    assert_eq!(store.state.expires_at, None);
    assert_eq!(store.state.user_info, None);
    assert_eq!(UserInfo::default().sub, "");
}

#[test]
fn new_service_is_unauthenticated() {
    let service = AuthService::new();
    assert!(!service.is_authenticated());
    assert_eq!(service.get_auth_state(), AuthState::default());
    assert_eq!(service.config(), Auth0Config::default());
    assert_eq!(service.get_pkce_params(), Err(AuthError::CsrfMismatch));
}

#[test]
fn login_without_config_fails() {
    let mut service = AuthService::new();
    assert_eq!(service.login(), Err(AuthError::ConfigMissing));
    assert_eq!(service.get_pkce_params(), Err(AuthError::CsrfMismatch));
    service.initialize_config(Auth0Config::with_defaults(
        "t.example.com".to_string(),
        String::new(),
        None,
        None,
        None,
    ));
    assert_eq!(service.login(), Err(AuthError::ConfigMissing));
    assert_eq!(service.begin_login(session("S", "V")), Err(AuthError::ConfigMissing));
    assert_eq!(service.get_pkce_params(), Err(AuthError::CsrfMismatch));
}

#[test]
fn login_stores_a_session_and_returns_the_authorize_url() {
    let mut service = configured();
    let url = service.login().unwrap();
    let (state, verifier) = service.get_pkce_params().unwrap();
    assert_eq!(state.len(), 32);
    assert_eq!(verifier.len(), 64);
    assert!(url.starts_with("https://t.example.com/authorize?response_type=code&client_id=cid&"));
    assert!(url.ends_with("&code_challenge_method=S256"));
    assert_eq!(query_value(&url, "state"), state);
    assert_eq!(query_value(&url, "code_challenge"), generate_code_challenge(&verifier));
    assert!(!service.is_authenticated());
}

#[test]
fn begin_login_url_is_exact() {
    let mut service = configured();
    let url = service.begin_login(session("STATE", "VERIFIER")).unwrap();
    assert_eq!(
        url,
        format!(
            "https://t.example.com/authorize?response_type=code&client_id=cid\
             &redirect_uri=http%3A%2F%2Flocalhost%3A3000%2Fauth%2Fcallback\
             &scope=openid%20profile%20email&state=STATE&code_challenge={}\
             &code_challenge_method=S256",
            generate_code_challenge("VERIFIER")
        )
    );
    assert_eq!(
        service.get_pkce_params(),
        Ok(("STATE".to_string(), "VERIFIER".to_string()))
    );
}

#[test]
fn callback_with_foreign_state_fails_csrf_mismatch() {
    let mut service = configured();
    service.login().unwrap();
    let r = service.handle_callback("http://localhost:3000/auth/callback?code=XYZ&state=other");
    assert_eq!(r, Err(AuthError::CsrfMismatch));
    assert!(!service.is_authenticated());
    assert_eq!(service.get_pkce_params(), Err(AuthError::CsrfMismatch));
}

#[test]
fn callback_without_pending_login_fails_csrf_mismatch() {
    let mut service = configured();
    let r = service.handle_callback("vibede://callback?code=XYZ&state=S");
    assert_eq!(r, Err(AuthError::CsrfMismatch));
}

#[test]
fn callback_with_matching_state_returns_the_token_request() {
    let mut service = configured();
    service.begin_login(session("S", "V")).unwrap();
    let request = service.handle_callback("vibede://callback?code=XYZ&state=S").unwrap();
    assert_eq!(request.url, "https://t.example.com/oauth/token");
    assert_eq!(request.grant_type, "authorization_code");
    assert_eq!(request.client_id, "cid");
    assert_eq!(request.code, "XYZ");
    assert_eq!(request.code_verifier, "V");
    assert_eq!(request.redirect_uri, "http://localhost:3000/auth/callback");
    assert_eq!(service.get_pkce_params(), Err(AuthError::CsrfMismatch));
    assert!(!service.is_authenticated());
}

#[test]
fn state_is_accepted_only_once() {
    let mut service = configured();
    service.begin_login(session("S", "V")).unwrap();
    let url = "vibede://callback?code=XYZ&state=S";
    assert!(service.handle_callback(url).is_ok());
    assert_eq!(service.handle_callback(url), Err(AuthError::CsrfMismatch));
    assert_eq!(service.handle_callback(url), Err(AuthError::CsrfMismatch));
}

#[test]
fn second_login_invalidates_the_first() {
    let mut service = configured();
    service.begin_login(session("first", "V1")).unwrap();
    service.begin_login(session("second", "V2")).unwrap();
    assert_eq!(
        service.handle_callback("vibede://callback?code=C&state=first"),
        Err(AuthError::CsrfMismatch)
    );
    assert_eq!(
        service.handle_callback("vibede://callback?code=C&state=second"),
        Err(AuthError::CsrfMismatch)
    );
}

#[test]
fn unreadable_callback_ends_the_attempt() {
    for (url, error) in [
        ("nonsense", AuthError::MalformedUrl),
        ("vibede://callback?state=S", AuthError::MissingCode),
        ("vibede://callback?code=C", AuthError::MissingState),
    ] {
        let mut service = configured();
        service.begin_login(session("S", "V")).unwrap();
        assert_eq!(service.handle_callback(url), Err(error));
        assert_eq!(service.get_pkce_params(), Err(AuthError::CsrfMismatch));
        assert!(!service.is_authenticated());
    }
}

#[test]
fn failed_callback_signs_out() {
    let mut service = signed_in();
    assert_eq!(service.handle_callback("nonsense"), Err(AuthError::MalformedUrl));
    assert_eq!(service.get_auth_state(), AuthState::default());
}

#[test]
fn response_missing_tokens_leaves_unauthenticated() {
    for body in ["{\"id_token\":\"x.y.z\"}", "{\"access_token\":\"AT\"}", "{}"] {
        let mut service = configured();
        service.begin_login(session("S", "V")).unwrap();
        service.handle_callback("vibede://callback?code=C&state=S").unwrap();
        let r = service
            .complete_exchange(ExchangeReply::Response { status: 200, body: body.to_string() }, 5);
        assert_eq!(r, Err(AuthError::MissingToken));
        assert!(!service.get_auth_state().authenticated);
        assert_eq!(service.get_auth_state(), AuthState::default());
    }
}

#[test]
fn failed_exchange_signs_out_whoever_was_signed_in() {
    let mut service = signed_in();
    let r = service.complete_exchange(ExchangeReply::Unreachable("down".to_string()), 5);
    assert_eq!(r, Err(AuthError::NetworkError("down".to_string())));
    assert_eq!(service.get_auth_state(), AuthState::default());
}

#[test]
fn well_formed_token_signs_in() {
    let mut service = configured();
    service.begin_login(session("S", "V")).unwrap();
    service.handle_callback("vibede://callback?code=C&state=S").unwrap();
    let now = 1_700_000_000u64;
    assert_eq!(service.complete_exchange(good_reply("abc123", 7200), now), Ok(()));
    let state = service.get_auth_state();
    assert!(state.authenticated);
    assert_eq!(state.expires_at, Some(now + 7200));
    assert_eq!(state.access_token, Some("AT".to_string()));
    assert!(state.id_token.is_some());
    let user = state.user_info.unwrap();
    assert_eq!(user.sub, "abc123");
    assert_eq!(user.name, Some("A".to_string()));
    assert_eq!(user.email, Some("a@x.com".to_string()));
    assert_eq!(user.picture, None);
}

#[test]
fn complete_exchange_now_uses_the_clock() {
    let mut service = configured();
    let before = std::time::SystemTime::now()
        .duration_since(std::time::UNIX_EPOCH)
        .unwrap()
        .as_secs();
    assert_eq!(service.complete_exchange_now(good_reply("u", 100)), Ok(()));
    let expires_at = service.get_auth_state().expires_at.unwrap();
    assert!(expires_at >= before + 100);
    assert!(expires_at <= before + 100 + 60);
}

#[test]
fn logout_resets_the_session() {
    let mut service = signed_in();
    let url = service.logout();
    assert_eq!(
        url,
        "https://t.example.com/v2/logout?client_id=cid&returnTo=vibede%3A%2F%2Fcallback"
    );
    assert_eq!(service.get_auth_state(), AuthState::default());
    assert!(!service.is_authenticated());
}

#[test]
fn logout_without_session_resets_too() {
    let mut service = AuthService::new();
    let url = service.logout();
    assert_eq!(url, "https:///v2/logout?client_id=&returnTo=vibede%3A%2F%2Fcallback");
    assert_eq!(service.get_auth_state(), AuthState::default());
    let mut service = configured();
    service.begin_login(session("S", "V")).unwrap();
    service.logout();
    assert_eq!(service.get_auth_state(), AuthState::default());
    assert_eq!(service.get_pkce_params(), Ok(("S".to_string(), "V".to_string())));
}

#[test]
fn initialize_config_replaces_the_config_only() {
    let mut service = signed_in();
    let before = service.get_auth_state();
    let config = Auth0Config::with_defaults(
        "other.example.com".to_string(),
        "cid2".to_string(),
        Some("app://cb".to_string()),
        Some("aud".to_string()),
        Some("openid".to_string()),
    );
    service.initialize_config(config.clone());
    assert_eq!(service.config(), config);
    assert_eq!(service.get_auth_state(), before);
}

#[test]
fn stored_pkce_params_come_back() {
    let mut service = AuthService::new();
    service.store_pkce_params("st:ate", "veri:fier");
    assert_eq!(
        service.get_pkce_params(),
        Ok(("st:ate".to_string(), "veri:fier".to_string()))
    );
    service.store_pkce_params("s2", "v2");
    assert_eq!(service.get_pkce_params(), Ok(("s2".to_string(), "v2".to_string())));
}

#[test]
fn manual_authenticate_accepts_its_own_state() {
    let mut service = configured();
    let request = service.manual_authenticate("CODE", "STATE", "VERIFIER").unwrap();
    assert_eq!(request.code, "CODE");
    assert_eq!(request.code_verifier, "VERIFIER");
    assert_eq!(request.client_id, "cid");
    assert_eq!(service.get_pkce_params(), Err(AuthError::CsrfMismatch));
}

#[test]
fn manual_authenticate_with_state_that_does_not_survive_the_url() {
    let mut service = configured();
    assert_eq!(
        service.manual_authenticate("CODE", "a&b", "VERIFIER"),
        Err(AuthError::CsrfMismatch)
    );
    let mut service = configured();
    assert_eq!(
        service.manual_authenticate("CO#DE", "S", "VERIFIER"),
        Err(AuthError::MissingState)
    );
}

#[test]
fn end_to_end_login() {
    let mut service = AuthService::new();
    service.initialize_config(Auth0Config::with_defaults(
        "t.example.com".to_string(),
        "cid".to_string(),
        None,
        None,
        None,
    ));
    let url = service.login().unwrap();
    assert!(url.contains("client_id=cid&"));
    assert!(url.ends_with("&code_challenge_method=S256"));
    let (state, verifier) = service.get_pkce_params().unwrap();
    let callback = format!("http://localhost:3000/auth/callback?code=XYZ&state={}", state);
    let request = service.handle_callback(&callback).unwrap();
    assert_eq!(request.code, "XYZ");
    assert_eq!(request.code_verifier, verifier);
    assert_eq!(service.complete_exchange(good_reply("abc123", 3600), 50), Ok(()));
    let auth = service.get_auth_state();
    assert!(auth.authenticated);
    assert_eq!(auth.user_info.unwrap().sub, "abc123");
    assert_eq!(auth.expires_at, Some(3650));
}
