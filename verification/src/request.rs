//! What goes out to the provider: the authorize URL, the logout URL and the token
//! request.

use crate::codec::url_encode;
use crate::codec::url_encoded;
use crate::config::authorize_root;
use crate::config::authorize_root_of;
use crate::config::normalize_domain;
use crate::config::normalized_domain;
use crate::config::Auth0Config;
use crate::config::Auth0ConfigView;
use vstd::prelude::*;

verus! {

/// The address to which the provider sends the authorization response: a local web page,
/// which hands the response on to the application's own URL scheme.
pub const REDIRECT_URI: &'static str = "http://localhost:3000/auth/callback";

/// The grant type of the code exchange.
pub const GRANT_TYPE: &'static str = "authorization_code";

/// The `audience` parameter of the authorize URL, where an audience is configured.
pub open spec fn audience_param(audience: Option<Seq<char>>) -> Seq<char> {
    match audience {
        Some(a) => "&audience="@ + url_encoded(a),
        None => seq![],
    }
}

/// The provider's authorize URL for a login with the given state and code challenge.
pub open spec fn authorize_url(config: Auth0ConfigView, state: Seq<char>, code_challenge: Seq<char>) -> Seq<
    char,
> {
    authorize_root(config.domain) + "/authorize?response_type=code&client_id="@ + config.client_id
        + "&redirect_uri="@ + url_encoded(REDIRECT_URI@) + "&scope="@ + url_encoded(config.scope)
        + "&state="@ + state + "&code_challenge="@ + code_challenge
        + "&code_challenge_method=S256"@ + audience_param(config.audience)
}

/// The provider's logout URL, which sends the user back to the configured callback.
pub open spec fn logout_url(config: Auth0ConfigView) -> Seq<char> {
    "https://"@ + config.domain + "/v2/logout?client_id="@ + config.client_id + "&returnTo="@
        + url_encoded(config.callback_url)
}

/// The provider's token endpoint.
pub open spec fn token_endpoint(domain: Seq<char>) -> Seq<char> {
    normalized_domain(domain) + "/oauth/token"@
}

/// Composes the authorize URL that the browser is to open.
pub fn build_authorize_url(config: &Auth0Config, state: &str, code_challenge: &str) -> (url: String)
    ensures
        url@ == authorize_url(config@, state@, code_challenge@),
{
    let redirect = url_encode(REDIRECT_URI);
    let scope = url_encode(config.scope.as_str());
    let url = authorize_root_of(config.domain.as_str()).concat(
        "/authorize?response_type=code&client_id=",
    ).concat(config.client_id.as_str()).concat("&redirect_uri=").concat(redirect.as_str()).concat(
        "&scope=",
    ).concat(scope.as_str()).concat("&state=").concat(state).concat("&code_challenge=").concat(
        code_challenge,
    ).concat("&code_challenge_method=S256");
    match &config.audience {
        Some(audience) => {
            let encoded = url_encode(audience.as_str());
            let tail = String::from_str("&audience=").concat(encoded.as_str());
            url.concat(tail.as_str())
        },
        None => {
            assert(url@ + Seq::<char>::empty() =~= url@);
            url
        },
    }
}

/// Composes the logout URL that the browser is to open.
pub fn build_logout_url(config: &Auth0Config) -> (url: String)
    ensures
        url@ == logout_url(config@),
{
    let back = url_encode(config.callback_url.as_str());
    String::from_str("https://").concat(config.domain.as_str()).concat(
        "/v2/logout?client_id=",
    ).concat(config.client_id.as_str()).concat("&returnTo=").concat(back.as_str())
}

/// What is posted to the token endpoint, as JSON members of these names, to exchange an
/// authorization code for tokens. No client secret is sent.
#[derive(Debug, PartialEq, Eq)]
pub struct TokenRequest {
    /// The token endpoint.
    pub url: String,
    pub grant_type: String,
    pub client_id: String,
    pub code_verifier: String,
    pub code: String,
    pub redirect_uri: String,
}

/// The mathematical value of a [`TokenRequest`].
pub ghost struct TokenRequestView {
    pub url: Seq<char>,
    pub grant_type: Seq<char>,
    pub client_id: Seq<char>,
    pub code_verifier: Seq<char>,
    pub code: Seq<char>,
    pub redirect_uri: Seq<char>,
}

impl View for TokenRequest {
    type V = TokenRequestView;

    open spec fn view(&self) -> TokenRequestView {
        TokenRequestView {
            url: self.url@,
            grant_type: self.grant_type@,
            client_id: self.client_id@,
            code_verifier: self.code_verifier@,
            code: self.code@,
            redirect_uri: self.redirect_uri@,
        }
    }
}

/// The request that exchanges `code` for tokens under the given configuration.
pub open spec fn token_request(config: Auth0ConfigView, code: Seq<char>, code_verifier: Seq<char>) -> TokenRequestView {
    TokenRequestView {
        url: token_endpoint(config.domain),
        grant_type: GRANT_TYPE@,
        client_id: config.client_id,
        code_verifier,
        code,
        redirect_uri: REDIRECT_URI@,
    }
}

/// Prepares the request that exchanges an authorization code for tokens.
pub fn build_token_request(config: &Auth0Config, code: &str, code_verifier: &str) -> (request:
    TokenRequest)
    ensures
        request@ == token_request(config@, code@, code_verifier@),
{
    TokenRequest {
        url: normalize_domain(config.domain.as_str()).concat("/oauth/token"),
        grant_type: String::from_str(GRANT_TYPE),
        client_id: config.client_id.clone(),
        code_verifier: String::from_str(code_verifier),
        code: String::from_str(code),
        redirect_uri: String::from_str(REDIRECT_URI),
    }
}

} // verus!
