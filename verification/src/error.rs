//! The errors of a login and their messages.

use crate::text::decimal;
use crate::text::decimal_digits;
use vstd::prelude::*;

verus! {

/// Why a login attempt ended without a session.
#[derive(Debug, PartialEq, Eq)]
pub enum AuthError {
    /// The provider configuration lacks a domain or a client id.
    ConfigMissing,
    /// The redirect could not be read as a URL.
    MalformedUrl,
    /// The redirect carries no `code` parameter.
    MissingCode,
    /// The redirect carries no `state` parameter.
    MissingState,
    /// The redirect's `state` is not the one of the pending login, or no login is pending.
    CsrfMismatch,
    /// The token endpoint could not be reached; the detail is the transport's own text.
    NetworkError(String),
    /// The token endpoint answered with a status outside 200..=299.
    TokenExchangeFailed { status: u16, body: String },
    /// The token response lacks a string `access_token` or `id_token`.
    MissingToken,
    /// The ID token has no payload segment, or the segment does not decode to JSON.
    InvalidIdToken,
    /// The ID token's payload has no string `sub` claim.
    MissingSubjectClaim,
}

/// The mathematical value of an [`AuthError`].
pub ghost enum AuthErrorView {
    ConfigMissing,
    MalformedUrl,
    MissingCode,
    MissingState,
    CsrfMismatch,
    NetworkError(Seq<char>),
    TokenExchangeFailed { status: u16, body: Seq<char> },
    MissingToken,
    InvalidIdToken,
    MissingSubjectClaim,
}

impl View for AuthError {
    type V = AuthErrorView;

    open spec fn view(&self) -> AuthErrorView {
        match *self {
            AuthError::ConfigMissing => AuthErrorView::ConfigMissing,
            AuthError::MalformedUrl => AuthErrorView::MalformedUrl,
            AuthError::MissingCode => AuthErrorView::MissingCode,
            AuthError::MissingState => AuthErrorView::MissingState,
            AuthError::CsrfMismatch => AuthErrorView::CsrfMismatch,
            AuthError::NetworkError(detail) => AuthErrorView::NetworkError(detail@),
            AuthError::TokenExchangeFailed { status, body } => AuthErrorView::TokenExchangeFailed {
                status,
                body: body@,
            },
            AuthError::MissingToken => AuthErrorView::MissingToken,
            AuthError::InvalidIdToken => AuthErrorView::InvalidIdToken,
            AuthError::MissingSubjectClaim => AuthErrorView::MissingSubjectClaim,
        }
    }
}

impl AuthErrorView {
    /// True for the errors that arise while the authorization code is exchanged for tokens.
    pub open spec fn from_exchange(self) -> bool {
        match self {
            AuthErrorView::NetworkError(_) => true,
            AuthErrorView::TokenExchangeFailed { .. } => true,
            AuthErrorView::MissingToken => true,
            AuthErrorView::InvalidIdToken => true,
            AuthErrorView::MissingSubjectClaim => true,
            _ => false,
        }
    }

    /// The text of the error alone.
    pub open spec fn detail(self) -> Seq<char> {
        match self {
            AuthErrorView::ConfigMissing => "Auth0 domain and client id must be configured"@,
            AuthErrorView::MalformedUrl => "Failed to parse callback URL"@,
            AuthErrorView::MissingCode => "No authorization code found in callback URL"@,
            AuthErrorView::MissingState => "No state parameter found in callback URL"@,
            AuthErrorView::CsrfMismatch => "State parameter mismatch. Possible CSRF attack."@,
            AuthErrorView::NetworkError(detail) => "Failed to send token request: "@ + detail,
            AuthErrorView::TokenExchangeFailed { status, body } =>
                "Token request failed with status "@ + decimal_digits(status as nat) + ": "@ + body,
            AuthErrorView::MissingToken => "No access token or ID token in response"@,
            AuthErrorView::InvalidIdToken => "Invalid ID token format"@,
            AuthErrorView::MissingSubjectClaim => "No sub claim in ID token"@,
        }
    }

    /// The message shown to the caller and to the user interface: the detail, and before it
    /// a common prefix where the error arose during the token exchange.
    pub open spec fn message(self) -> Seq<char> {
        if self.from_exchange() {
            "Failed to exchange code for tokens: "@ + self.detail()
        } else {
            self.detail()
        }
    }
}

impl Clone for AuthError {
    fn clone(&self) -> (copy: Self)
        ensures
            copy == *self,
    {
        match self {
            AuthError::ConfigMissing => AuthError::ConfigMissing,
            AuthError::MalformedUrl => AuthError::MalformedUrl,
            AuthError::MissingCode => AuthError::MissingCode,
            AuthError::MissingState => AuthError::MissingState,
            AuthError::CsrfMismatch => AuthError::CsrfMismatch,
            AuthError::NetworkError(detail) => AuthError::NetworkError(detail.clone()),
            AuthError::TokenExchangeFailed { status, body } => AuthError::TokenExchangeFailed {
                status: *status,
                body: body.clone(),
            },
            AuthError::MissingToken => AuthError::MissingToken,
            AuthError::InvalidIdToken => AuthError::InvalidIdToken,
            AuthError::MissingSubjectClaim => AuthError::MissingSubjectClaim,
        }
    }
}

impl AuthError {
    /// The human-readable message of this error.
    pub fn message(&self) -> (text: String)
        ensures
            text@ == self@.message(),
    {
        let detail = match self {
            AuthError::ConfigMissing => String::from_str(
                "Auth0 domain and client id must be configured",
            ),
            AuthError::MalformedUrl => String::from_str("Failed to parse callback URL"),
            AuthError::MissingCode => String::from_str(
                "No authorization code found in callback URL",
            ),
            AuthError::MissingState => String::from_str("No state parameter found in callback URL"),
            AuthError::CsrfMismatch => String::from_str(
                "State parameter mismatch. Possible CSRF attack.",
            ),
            AuthError::NetworkError(detail) => String::from_str(
                "Failed to send token request: ",
            ).concat(detail.as_str()),
            AuthError::TokenExchangeFailed { status, body } => {
                let number = decimal(*status as u64);
                String::from_str("Token request failed with status ").concat(
                    number.as_str(),
                ).concat(": ").concat(body.as_str())
            },
            AuthError::MissingToken => String::from_str("No access token or ID token in response"),
            AuthError::InvalidIdToken => String::from_str("Invalid ID token format"),
            AuthError::MissingSubjectClaim => String::from_str("No sub claim in ID token"),
        };
        match self {
            AuthError::NetworkError(_) | AuthError::TokenExchangeFailed { .. }
            | AuthError::MissingToken | AuthError::InvalidIdToken
            | AuthError::MissingSubjectClaim => String::from_str(
                "Failed to exchange code for tokens: ",
            ).concat(detail.as_str()),
            _ => detail,
        }
    }
}


/// The mathematical value of a result whose error is an [`AuthError`].
pub open spec fn outcome_view<T: View>(r: Result<T, AuthError>) -> Result<T::V, AuthErrorView> {
    match r {
        Ok(value) => Ok(value@),
        Err(error) => Err(error@),
    }
}

} // verus!
