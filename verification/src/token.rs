//! Reading the token endpoint's response and the ID token it carries.

use crate::codec::base64_decode;
use crate::codec::base64_standard_decoded;
use crate::codec::string_from_utf8;
use crate::error::outcome_view;
use crate::error::AuthError;
use crate::error::AuthErrorView;
use crate::json::json_member;
use crate::json::read_member;
use crate::json::JsonMember;
use crate::json::JsonMemberView;
use crate::session::AuthState;
use crate::session::AuthStateView;
use crate::session::UserInfo;
use crate::session::UserInfoView;
use crate::text::find_byte;
use crate::text::first_index;
use vstd::prelude::*;
use vstd::utf8::decode_utf8;
use vstd::utf8::encode_utf8;
use vstd::utf8::valid_utf8;

verus! {

/// The lifetime in seconds of a token whose response names none.
pub const DEFAULT_EXPIRES_IN: u64 = 3600;

/// ASCII `.`, which parts the segments of a JWT.
pub const DOT: u8 = 46;

/// ASCII `=`, the Base64 padding sign.
pub const PAD: u8 = 61;

/// What the token endpoint's response carries.
#[derive(Debug, PartialEq, Eq)]
pub struct TokenResponse {
    pub access_token: String,
    pub id_token: String,
    /// Lifetime of the access token in seconds.
    pub expires_in: u64,
}

/// The mathematical value of a [`TokenResponse`].
pub ghost struct TokenResponseView {
    pub access_token: Seq<char>,
    pub id_token: Seq<char>,
    pub expires_in: u64,
}

impl View for TokenResponse {
    type V = TokenResponseView;

    open spec fn view(&self) -> TokenResponseView {
        TokenResponseView {
            access_token: self.access_token@,
            id_token: self.id_token@,
            expires_in: self.expires_in,
        }
    }
}

/// How the request to the token endpoint ended.
#[derive(Debug, PartialEq, Eq)]
pub enum ExchangeReply {
    /// No response arrived; the string is the transport's account of it.
    Unreachable(String),
    /// The endpoint answered.
    Response { status: u16, body: String },
}

/// The mathematical value of an [`ExchangeReply`].
pub ghost enum ExchangeReplyView {
    Unreachable(Seq<char>),
    Response { status: u16, body: Seq<char> },
}

impl View for ExchangeReply {
    type V = ExchangeReplyView;

    open spec fn view(&self) -> ExchangeReplyView {
        match *self {
            ExchangeReply::Unreachable(detail) => ExchangeReplyView::Unreachable(detail@),
            ExchangeReply::Response { status, body } => ExchangeReplyView::Response {
                status,
                body: body@,
            },
        }
    }
}

/// True for the HTTP status codes of success, 200 to 299.
pub open spec fn is_success(status: u16) -> bool {
    200 <= status && status <= 299
}

/// The tokens that the three members of a response body give: both tokens must be
/// strings; the lifetime is the `expires_in` member where that is a `u64`, and
/// [`DEFAULT_EXPIRES_IN`] otherwise.
pub open spec fn token_fields_spec(
    access: JsonMemberView,
    id: JsonMemberView,
    expires: JsonMemberView,
) -> Result<TokenResponseView, AuthErrorView> {
    match (access, id) {
        (JsonMemberView::Text(access_token), JsonMemberView::Text(id_token)) => Ok(
            TokenResponseView {
                access_token,
                id_token,
                expires_in: match expires {
                    JsonMemberView::Unsigned(seconds) => seconds,
                    _ => DEFAULT_EXPIRES_IN,
                },
            },
        ),
        _ => Err(AuthErrorView::MissingToken),
    }
}

/// What a response with the given status and body yields.
pub open spec fn token_response_spec(status: u16, body: Seq<char>) -> Result<
    TokenResponseView,
    AuthErrorView,
> {
    if !is_success(status) {
        Err(AuthErrorView::TokenExchangeFailed { status, body })
    } else {
        token_fields_spec(
            json_member(body, "access_token"@),
            json_member(body, "id_token"@),
            json_member(body, "expires_in"@),
        )
    }
}

/// Builds the token response from the three members read off a response body.
pub fn token_fields(access: JsonMember, id: JsonMember, expires: JsonMember) -> (r: Result<
    TokenResponse,
    AuthError,
>)
    ensures
        outcome_view(r) == token_fields_spec(access@, id@, expires@),
{
    let access_token = match access {
        JsonMember::Text(s) => s,
        _ => {
            return Err(AuthError::MissingToken);
        },
    };
    let id_token = match id {
        JsonMember::Text(s) => s,
        _ => {
            return Err(AuthError::MissingToken);
        },
    };
    let expires_in = match expires {
        JsonMember::Unsigned(seconds) => seconds,
        _ => DEFAULT_EXPIRES_IN,
    };
    Ok(TokenResponse { access_token, id_token, expires_in })
}

/// Reads the token endpoint's response: a status outside 200..=299 is reported with the
/// body; otherwise the body must be JSON with string members `access_token` and `id_token`.
pub fn read_token_response(status: u16, body: &str) -> (r: Result<TokenResponse, AuthError>)
    ensures
        outcome_view(r) == token_response_spec(status, body@),
{
    if status < 200 || status > 299 {
        return Err(AuthError::TokenExchangeFailed { status, body: String::from_str(body) });
    }
    let access = read_member(body, "access_token");
    let id = read_member(body, "id_token");
    let expires = read_member(body, "expires_in");
    token_fields(access, id, expires)
}

/// The second of the dot-separated segments of a token, where the token holds a dot.
pub open spec fn payload_segment(token: Seq<u8>) -> Option<Seq<u8>> {
    let first = first_index(token, DOT);
    if first >= token.len() {
        None
    } else {
        let rest = token.skip(first + 1);
        Some(rest.take(first_index(rest, DOT)))
    }
}

/// `segment` followed by as many `=` as bring its length to a multiple of four.
pub open spec fn padded(segment: Seq<u8>) -> Seq<u8> {
    segment + Seq::new(((4 - segment.len() % 4) % 4) as nat, |i: int| PAD)
}

/// The byte with `-` turned into `+` and `_` into `/`.
pub open spec fn standard_byte(b: u8) -> u8 {
    if b == 45 {
        43
    } else if b == 95 {
        47
    } else {
        b
    }
}

/// URL-safe Base64 text rewritten in the standard alphabet.
pub open spec fn in_standard_alphabet(text: Seq<u8>) -> Seq<u8> {
    text.map_values(|b: u8| standard_byte(b))
}

/// The JSON text that an ID token carries in its payload segment: the segment is padded,
/// rewritten in the standard alphabet, decoded from Base64 and read as UTF-8. `None`
/// where the token has no second segment or one of the steps fails.
pub open spec fn claims_text(token: Seq<u8>) -> Option<Seq<char>> {
    match payload_segment(token) {
        None => None,
        Some(segment) => match base64_standard_decoded(in_standard_alphabet(padded(segment))) {
            None => None,
            Some(bytes) => if valid_utf8(bytes) {
                Some(decode_utf8(bytes))
            } else {
                None
            },
        },
    }
}

/// The user that the four claims read off an ID token's payload describe.
pub open spec fn user_from_claims_spec(
    sub: JsonMemberView,
    name: JsonMemberView,
    email: JsonMemberView,
    picture: JsonMemberView,
) -> Result<UserInfoView, AuthErrorView> {
    match sub {
        JsonMemberView::Invalid => Err(AuthErrorView::InvalidIdToken),
        JsonMemberView::Text(subject) => Ok(
            UserInfoView {
                sub: subject,
                name: name.text(),
                email: email.text(),
                picture: picture.text(),
            },
        ),
        _ => Err(AuthErrorView::MissingSubjectClaim),
    }
}

/// The user that an ID token names. The token's signature is not examined.
pub open spec fn id_token_user_spec(id_token: Seq<char>) -> Result<UserInfoView, AuthErrorView> {
    match claims_text(encode_utf8(id_token)) {
        None => Err(AuthErrorView::InvalidIdToken),
        Some(claims) => user_from_claims_spec(
            json_member(claims, "sub"@),
            json_member(claims, "name"@),
            json_member(claims, "email"@),
            json_member(claims, "picture"@),
        ),
    }
}

/// Builds the user from the four claims read off an ID token's payload: `sub` must be a
/// string; each of the others is kept where it is a string.
pub fn user_from_claims(
    sub: JsonMember,
    name: JsonMember,
    email: JsonMember,
    picture: JsonMember,
) -> (r: Result<UserInfo, AuthError>)
    ensures
        outcome_view(r) == user_from_claims_spec(sub@, name@, email@, picture@),
{
    match sub {
        JsonMember::Invalid => Err(AuthError::InvalidIdToken),
        JsonMember::Text(subject) => Ok(
            UserInfo {
                sub: subject,
                name: name.into_text(),
                email: email.into_text(),
                picture: picture.into_text(),
            },
        ),
        _ => Err(AuthError::MissingSubjectClaim),
    }
}

/// Cuts the payload segment out of a token and prepares it for a decoder of padded
/// standard Base64.
pub fn payload_base64(token: &[u8]) -> (r: Option<Vec<u8>>)
    ensures
        match r {
            Some(text) => payload_segment(token@) is Some && text@ == in_standard_alphabet(
                padded(payload_segment(token@).unwrap()),
            ),
            None => payload_segment(token@) is None,
        },
{
    let first = find_byte(token, 0, DOT);
    assert(token@.skip(0) == token@);
    if first >= token.len() {
        return None;
    }
    let start = first + 1;
    let end = find_byte(token, start, DOT);
    let ghost rest = token@.skip(start as int);
    let ghost segment = rest.take(end - start);
    let ghost target = in_standard_alphabet(padded(segment));
    let mut text: Vec<u8> = Vec::new();
    let mut i: usize = start;
    while i < end
        invariant
            start <= i <= end <= token@.len(),
            rest == token@.skip(start as int),
            segment == rest.take(end - start),
            text@ == segment.take(i - start).map_values(|b: u8| standard_byte(b)),
        decreases end - i,
    {
        let b = token[i];
        let rewritten = if b == 45 {
            43
        } else if b == 95 {
            47
        } else {
            b
        };
        text.push(rewritten);
        proof {
            assert(segment[i - start] == token@[i as int]);
            assert(segment.take(i + 1 - start) == segment.take(i - start).push(
                segment[i - start],
            ));
            assert(text@ =~= segment.take(i + 1 - start).map_values(|b: u8| standard_byte(b)));
        }
        i += 1;
    }
    assert(segment.take(end - start) == segment);
    let length = end - start;
    let missing = (4 - length % 4) % 4;
    let mut k: usize = 0;
    while k < missing
        invariant
            k <= missing,
            text@ == segment.map_values(|b: u8| standard_byte(b)) + Seq::new(
                k as nat,
                |i: int| PAD,
            ),
        decreases missing - k,
    {
        text.push(PAD);
        assert(text@ =~= segment.map_values(|b: u8| standard_byte(b)) + Seq::new(
            (k + 1) as nat,
            |i: int| PAD,
        ));
        k += 1;
    }
    assert(text@ =~= target);
    Some(text)
}

/// Reads the user out of an ID token: the payload segment is decoded and parsed as JSON,
/// and the claims `sub`, `name`, `email` and `picture` are taken from it. The signature
/// is not examined.
pub fn decode_id_token(id_token: &str) -> (r: Result<UserInfo, AuthError>)
    ensures
        outcome_view(r) == id_token_user_spec(id_token@),
{
    let text = match payload_base64(id_token.as_bytes()) {
        Some(text) => text,
        None => {
            return Err(AuthError::InvalidIdToken);
        },
    };
    let bytes = match base64_decode(text.as_slice()) {
        Some(bytes) => bytes,
        None => {
            return Err(AuthError::InvalidIdToken);
        },
    };
    let claims = match string_from_utf8(bytes) {
        Some(claims) => claims,
        None => {
            return Err(AuthError::InvalidIdToken);
        },
    };
    let sub = read_member(claims.as_str(), "sub");
    let name = read_member(claims.as_str(), "name");
    let email = read_member(claims.as_str(), "email");
    let picture = read_member(claims.as_str(), "picture");
    user_from_claims(sub, name, email, picture)
}

/// The moment of expiry: `now + expires_in`, held at `u64::MAX` where the sum would pass it.
pub open spec fn expiry_spec(now: u64, expires_in: u64) -> u64 {
    if now + expires_in > u64::MAX {
        u64::MAX
    } else {
        (now + expires_in) as u64
    }
}

/// The moment of expiry of a token received at `now` that lives `expires_in` seconds.
pub fn expiry(now: u64, expires_in: u64) -> (at: u64)
    ensures
        at == expiry_spec(now, expires_in),
{
    if expires_in > u64::MAX - now {
        u64::MAX
    } else {
        now + expires_in
    }
}

/// The authenticated session that a token response and its user make at time `now`.
pub open spec fn signed_in(tokens: TokenResponseView, user: UserInfoView, now: u64) -> AuthStateView {
    AuthStateView {
        authenticated: true,
        access_token: Some(tokens.access_token),
        id_token: Some(tokens.id_token),
        expires_at: Some(expiry_spec(now, tokens.expires_in)),
        user_info: Some(user),
    }
}

/// The session that a reply of the token endpoint leads to at time `now`, or the error
/// that ends the login.
pub open spec fn exchange_outcome_spec(reply: ExchangeReplyView, now: u64) -> Result<
    AuthStateView,
    AuthErrorView,
> {
    match reply {
        ExchangeReplyView::Unreachable(detail) => Err(AuthErrorView::NetworkError(detail)),
        ExchangeReplyView::Response { status, body } => match token_response_spec(status, body) {
            Err(e) => Err(e),
            Ok(tokens) => match id_token_user_spec(tokens.id_token) {
                Err(e) => Err(e),
                Ok(user) => Ok(signed_in(tokens, user, now)),
            },
        },
    }
}

/// Turns the token endpoint's reply into an authenticated session, or into the error
/// that ends the login.
pub fn exchange_outcome(reply: ExchangeReply, now: u64) -> (r: Result<AuthState, AuthError>)
    ensures
        outcome_view(r) == exchange_outcome_spec(reply@, now),
        r matches Ok(state) ==> state@.authenticated && state@.wf(),
{
    match reply {
        ExchangeReply::Unreachable(detail) => Err(AuthError::NetworkError(detail)),
        ExchangeReply::Response { status, body } => {
            let tokens = match read_token_response(status, body.as_str()) {
                Ok(tokens) => tokens,
                Err(e) => {
                    return Err(e);
                },
            };
            let user = match decode_id_token(tokens.id_token.as_str()) {
                Ok(user) => user,
                Err(e) => {
                    return Err(e);
                },
            };
            let expires_at = expiry(now, tokens.expires_in);
            Ok(
                AuthState {
                    authenticated: true,
                    access_token: Some(tokens.access_token),
                    id_token: Some(tokens.id_token),
                    expires_at: Some(expires_at),
                    user_info: Some(user),
                },
            )
        },
    }
}

} // verus!
