//! The secrets of a login with PKCE: state, code verifier and code challenge.

use crate::codec::base64url_encode;
use crate::codec::base64url_unpadded;
use crate::codec::is_base64url_char;
use crate::codec::lemma_base64url_shape;
use crate::codec::sha256;
use crate::codec::sha256_digest;
use crate::codec::string_from_utf8;
use rand::Rng;
use vstd::prelude::*;
use vstd::utf8::encode_utf8;
use vstd::utf8::encode_utf8_decode_utf8;
use vstd::utf8::encode_utf8_valid_utf8;
use vstd::utf8::is_ascii_chars;
use vstd::utf8::is_ascii_chars_encode_utf8;

verus! {

/// The length of the CSRF state token of a login.
pub const STATE_LENGTH: usize = 32;

/// The length of the PKCE code verifier of a login.
pub const VERIFIER_LENGTH: usize = 64;

/// True for the ASCII letters and digits.
pub open spec fn is_alphanumeric(c: char) -> bool {
    ('A' <= c && c <= 'Z') || ('a' <= c && c <= 'z') || ('0' <= c && c <= '9')
}

/// True for strings of ASCII letters and digits.
pub open spec fn all_alphanumeric(s: Seq<char>) -> bool {
    forall|i: int| 0 <= i < s.len() ==> is_alphanumeric(#[trigger] s[i])
}

/// Calls `Rng::sample` of the rand crate on the thread's generator with the
/// `Alphanumeric` distribution. Trusted: whatever is drawn is an ASCII letter or digit.
#[verifier::external_body]
fn random_alphanumeric() -> (b: u8)
    ensures
        is_alphanumeric(b as char),
{
    rand::thread_rng().sample(rand::distributions::Alphanumeric)
}

/// The string of the given ASCII letters and digits.
pub fn alphanumeric_string(bytes: Vec<u8>) -> (s: String)
    requires
        forall|i: int| 0 <= i < bytes@.len() ==> is_alphanumeric(#[trigger] bytes@[i] as char),
    ensures
        s@ == bytes@.map_values(|b: u8| b as char),
        s@.len() == bytes@.len(),
        all_alphanumeric(s@),
{
    let ghost chars = bytes@.map_values(|b: u8| b as char);
    proof {
        assert(is_ascii_chars(chars));
        is_ascii_chars_encode_utf8(chars);
        assert(encode_utf8(chars) =~= bytes@);
        encode_utf8_valid_utf8(chars);
        encode_utf8_decode_utf8(chars);
    }
    match string_from_utf8(bytes) {
        Some(s) => s,
        None => String::new(),
    }
}

/// A fresh random string of `length` ASCII letters and digits.
pub fn generate_random_string(length: usize) -> (s: String)
    ensures
        s@.len() == length,
        all_alphanumeric(s@),
{
    let mut bytes: Vec<u8> = Vec::new();
    while bytes.len() < length
        invariant
            bytes@.len() <= length,
            forall|i: int| 0 <= i < bytes@.len() ==> is_alphanumeric(#[trigger] bytes@[i] as char),
        decreases length - bytes@.len(),
    {
        let b = random_alphanumeric();
        bytes.push(b);
    }
    alphanumeric_string(bytes)
}

/// The PKCE code challenge of a code verifier by the method S256: the SHA-256 digest of
/// the verifier's bytes in URL-safe Base64 without padding.
pub open spec fn code_challenge(code_verifier: Seq<char>) -> Seq<char> {
    base64url_unpadded(sha256(encode_utf8(code_verifier)))
}

/// The code challenge of a verifier whose digest has the 32 bytes of SHA-256 has 43
/// characters, all of the URL-safe Base64 alphabet; so none is `+`, `/` or `=`.
pub proof fn lemma_code_challenge_shape(code_verifier: Seq<char>)
    requires
        sha256(encode_utf8(code_verifier)).len() == 32,
    ensures
        code_challenge(code_verifier).len() == 43,
        forall|i: int|
            0 <= i < 43 ==> is_base64url_char(#[trigger] code_challenge(code_verifier)[i]),
        forall|i: int|
            0 <= i < 43 ==> {
                let c = #[trigger] code_challenge(code_verifier)[i];
                c != '+' && c != '/' && c != '='
            },
{
    lemma_base64url_shape(sha256(encode_utf8(code_verifier)));
}

/// Derives the code challenge of a code verifier. The challenge depends on the verifier
/// alone, has 43 characters of the URL-safe Base64 alphabet, and so holds no `+`, `/`
/// or `=`.
pub fn generate_code_challenge(code_verifier: &str) -> (challenge: String)
    ensures
        challenge@ == code_challenge(code_verifier@),
        challenge@.len() == 43,
        forall|i: int| 0 <= i < challenge@.len() ==> is_base64url_char(#[trigger] challenge@[i]),
        forall|i: int|
            0 <= i < challenge@.len() ==> {
                let c = #[trigger] challenge@[i];
                c != '+' && c != '/' && c != '='
            },
{
    let digest = sha256_digest(code_verifier.as_bytes());
    proof {
        lemma_code_challenge_shape(code_verifier@);
    }
    base64url_encode(digest.as_slice())
}

/// The secrets of one login attempt.
#[derive(Debug, PartialEq, Eq)]
pub struct PkceSession {
    /// The CSRF token that the provider hands back with the redirect.
    pub state: String,
    /// The secret whose challenge went out with the authorization request.
    pub code_verifier: String,
}

/// The mathematical value of a [`PkceSession`].
pub ghost struct PkceSessionView {
    pub state: Seq<char>,
    pub code_verifier: Seq<char>,
}

impl PkceSessionView {
    /// What [`PkceSession::generate`] promises of a session: a state of 32 and a verifier
    /// of 64 ASCII letters and digits.
    pub open spec fn is_fresh(self) -> bool {
        &&& self.state.len() == STATE_LENGTH
        &&& all_alphanumeric(self.state)
        &&& self.code_verifier.len() == VERIFIER_LENGTH
        &&& all_alphanumeric(self.code_verifier)
    }
}

impl View for PkceSession {
    type V = PkceSessionView;

    open spec fn view(&self) -> PkceSessionView {
        PkceSessionView { state: self.state@, code_verifier: self.code_verifier@ }
    }
}

impl Clone for PkceSession {
    fn clone(&self) -> (copy: Self)
        ensures
            copy == *self,
    {
        PkceSession { state: self.state.clone(), code_verifier: self.code_verifier.clone() }
    }
}

impl PkceSession {
    /// Draws the state and the code verifier of a new login attempt.
    pub fn generate() -> (session: Self)
        ensures
            session@.is_fresh(),
    {
        let state = generate_random_string(STATE_LENGTH);
        let code_verifier = generate_random_string(VERIFIER_LENGTH);
        PkceSession { state, code_verifier }
    }

    /// The code challenge that goes out with the authorization request of this session.
    pub fn challenge(&self) -> (challenge: String)
        ensures
            challenge@ == code_challenge(self@.code_verifier),
            challenge@.len() == 43,
            forall|i: int| 0 <= i < challenge@.len() ==> is_base64url_char(#[trigger] challenge@[i]),
    {
        generate_code_challenge(self.code_verifier.as_str())
    }
}

} // verus!
