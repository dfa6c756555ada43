use vibede_core::error::AuthError;
use vibede_core::events::login_failed;
use vibede_core::events::login_finished;
use vibede_core::events::Notification;
use vibede_core::text::decimal;

#[test]
fn messages_of_the_errors_before_the_exchange() {
    assert_eq!(
        AuthError::ConfigMissing.message(),
        "Auth0 domain and client id must be configured"
    );
    assert_eq!(AuthError::MalformedUrl.message(), "Failed to parse callback URL");
    assert_eq!(
        AuthError::MissingCode.message(),
        "No authorization code found in callback URL"
    );
    assert_eq!(AuthError::MissingState.message(), "No state parameter found in callback URL");
    assert_eq!(
        AuthError::CsrfMismatch.message(),
        "State parameter mismatch. Possible CSRF attack."
    );
}

#[test]
fn messages_of_the_errors_of_the_exchange() {
    assert_eq!(
        AuthError::NetworkError("timed out".to_string()).message(),
        "Failed to exchange code for tokens: Failed to send token request: timed out"
    );
    assert_eq!(
        AuthError::TokenExchangeFailed { status: 403, body: "denied".to_string() }.message(),
        "Failed to exchange code for tokens: Token request failed with status 403: denied"
    );
    assert_eq!(
        AuthError::MissingToken.message(),
        "Failed to exchange code for tokens: No access token or ID token in response"
    );
    assert_eq!(
        AuthError::InvalidIdToken.message(),
        "Failed to exchange code for tokens: Invalid ID token format"
    );
    assert_eq!(
        AuthError::MissingSubjectClaim.message(),
        "Failed to exchange code for tokens: No sub claim in ID token"
    );
}

#[test]
fn error_clone_is_equal() {
    let e = AuthError::TokenExchangeFailed { status: 500, body: "x".to_string() };
    assert_eq!(e.clone(), e);
    let e = AuthError::NetworkError("n".to_string());
    assert_eq!(e.clone(), e);
}

#[test]
fn decimal_numerals() {
    assert_eq!(decimal(0), "0");
    assert_eq!(decimal(7), "7");
    assert_eq!(decimal(10), "10");
    assert_eq!(decimal(404), "404");
    assert_eq!(decimal(65535), "65535");
    assert_eq!(decimal(u64::MAX), "18446744073709551615");
}

#[test]
fn event_names_and_payloads() {
    assert_eq!(Notification::LoginComplete.event_name(), "auth:login-complete");
    assert_eq!(Notification::LoginError("m".to_string()).event_name(), "auth:login-error");
    assert_eq!(Notification::LogoutComplete.event_name(), "auth:logout-complete");
    assert_eq!(Notification::LoginComplete.payload(), None);
    assert_eq!(Notification::LogoutComplete.payload(), None);
    assert_eq!(Notification::LoginError("m".to_string()).payload(), Some("m".to_string()));
}

#[test]
fn login_events() {
    assert_eq!(login_finished(&Ok(())), Notification::LoginComplete);
    assert_eq!(
        login_finished(&Err(AuthError::MissingToken)),
        Notification::LoginError(
            "Failed to exchange code for tokens: No access token or ID token in response"
                .to_string()
        )
    );
    assert_eq!(
        login_failed(&AuthError::CsrfMismatch),
        Notification::LoginError("State parameter mismatch. Possible CSRF attack.".to_string())
    );
}
