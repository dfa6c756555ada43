//! What holds of the login flow as a whole, proved over the mathematical values of the
//! service and of the texts that pass through it.

use crate::callback::parse_callback_spec;
use crate::codec::base64_padding;
use crate::codec::base64_standard;
use crate::codec::base64url_bytes;
use crate::codec::lemma_base64_decode_encode;
use crate::codec::lemma_sextets_shape;
use crate::codec::sextets;
use crate::codec::standard_symbol;
use crate::codec::url_symbol;
use crate::config::Auth0ConfigView;
use crate::error::AuthErrorView;
use crate::json::json_member;
use crate::pkce::PkceSessionView;
use crate::service::AuthServiceView;
use crate::service::Phase;
use crate::session::AuthStateView;
use crate::text::lemma_first_index_is;
use crate::token::claims_text;
use crate::token::exchange_outcome_spec;
use crate::token::in_standard_alphabet;
use crate::token::padded;
use crate::token::payload_segment;
use crate::token::standard_byte;
use crate::token::DOT;
use crate::token::PAD;
use crate::token::is_success;
use crate::token::ExchangeReplyView;
use vstd::prelude::*;
use vstd::utf8::decode_utf8;
use vstd::utf8::valid_utf8;

verus! {

/// A redirect whose state is not the one of the login started last is rejected with
/// `CsrfMismatch`: no token request comes of it, and the attempt is over.
pub proof fn lemma_foreign_state_is_rejected(
    service: AuthServiceView,
    session: PkceSessionView,
    raw_url: Seq<char>,
)
    requires
        service.config.is_complete(),
        parse_callback_spec(raw_url) is Ok,
        parse_callback_spec(raw_url)->Ok_0.state != session.state,
    ensures
        service.after_login(session).callback_outcome(raw_url) == Err::<
            crate::request::TokenRequestView,
            AuthErrorView,
        >(AuthErrorView::CsrfMismatch),
        service.after_login(session).after_callback(raw_url).pending is None,
        service.after_login(session).after_callback(raw_url).phase() == Phase::Unauthenticated,
{
}

/// Whatever is pending, a redirect that can be read is accepted only if a login is
/// pending and the redirect carries that login's state; anything else is `CsrfMismatch`.
pub proof fn lemma_redirect_needs_pending_state(service: AuthServiceView, raw_url: Seq<char>)
    requires
        parse_callback_spec(raw_url) is Ok,
    ensures
        service.callback_outcome(raw_url) is Ok <==> (service.pending is Some
            && service.pending->Some_0.state == parse_callback_spec(raw_url)->Ok_0.state),
        service.callback_outcome(raw_url) is Err ==> service.callback_outcome(raw_url)
            == Err::<crate::request::TokenRequestView, AuthErrorView>(AuthErrorView::CsrfMismatch),
{
}

/// A state is accepted at most once: after a redirect was accepted, the same redirect
/// is rejected with `CsrfMismatch`.
pub proof fn lemma_state_is_accepted_once(service: AuthServiceView, raw_url: Seq<char>)
    requires
        service.callback_outcome(raw_url) is Ok,
    ensures
        service.after_callback(raw_url).callback_outcome(raw_url) == Err::<
            crate::request::TokenRequestView,
            AuthErrorView,
        >(AuthErrorView::CsrfMismatch),
{
}

/// After an accepted redirect every further redirect is rejected until a new login
/// starts.
pub proof fn lemma_accepted_redirect_uses_up_login(
    service: AuthServiceView,
    raw_url: Seq<char>,
    next_url: Seq<char>,
)
    requires
        service.callback_outcome(raw_url) is Ok,
    ensures
        service.after_callback(raw_url).callback_outcome(next_url) is Err,
{
}

/// A successful response of the token endpoint that lacks a string `access_token` or a
/// string `id_token` fails with `MissingToken` and leaves nobody signed in.
pub proof fn lemma_missing_token_signs_nobody_in(
    service: AuthServiceView,
    status: u16,
    body: Seq<char>,
    now: u64,
)
    requires
        is_success(status),
        !(json_member(body, "access_token"@) is Text) || !(json_member(body, "id_token"@) is Text),
    ensures
        service.reply_outcome(ExchangeReplyView::Response { status, body }, now) == Err::<
            (),
            AuthErrorView,
        >(AuthErrorView::MissingToken),
        !service.after_reply(ExchangeReplyView::Response { status, body }, now).state.authenticated,
        service.after_reply(ExchangeReplyView::Response { status, body }, now).state
            == AuthStateView::unauthenticated(),
{
}

/// Logout leaves the session in its initial value, whatever it was before, and touches
/// neither the configuration nor a pending login.
pub proof fn lemma_logout_resets_session(service: AuthServiceView)
    ensures
        service.after_logout().state == AuthStateView::unauthenticated(),
        service.after_logout().config == service.config,
        service.after_logout().pending == service.pending,
        service.after_logout().phase() != Phase::Authenticated,
{
}

/// Every failure of a redirect or of the token exchange ends the login attempt: nobody
/// is signed in and nothing is pending.
pub proof fn lemma_failure_ends_attempt(
    service: AuthServiceView,
    raw_url: Seq<char>,
    reply: ExchangeReplyView,
    now: u64,
)
    ensures
        service.callback_outcome(raw_url) is Err ==> service.after_callback(raw_url).phase()
            == Phase::Unauthenticated,
        service.reply_outcome(reply, now) is Err ==> service.after_reply(reply, now).phase()
            == Phase::Unauthenticated,
        service.reply_outcome(reply, now) is Ok ==> service.after_reply(reply, now).phase()
            == Phase::Authenticated,
{
}

/// The session that a reply of the token endpoint gives is marked authenticated and
/// holds both tokens, the expiry and the user.
pub proof fn lemma_exchange_outcome_wf(reply: ExchangeReplyView, now: u64)
    ensures
        exchange_outcome_spec(reply, now) matches Ok(state) ==> state.authenticated && state.wf(),
{
}

/// Every step keeps the session consistent: it is marked authenticated exactly if both
/// tokens, the expiry and the user are present.
pub proof fn lemma_steps_keep_session_consistent(
    service: AuthServiceView,
    config: Auth0ConfigView,
    session: PkceSessionView,
    raw_url: Seq<char>,
    reply: ExchangeReplyView,
    now: u64,
)
    requires
        service.wf(),
    ensures
        AuthServiceView::initial().wf(),
        service.configured(config).wf(),
        service.after_login(session).wf(),
        service.after_callback(raw_url).wf(),
        service.after_reply(reply, now).wf(),
        service.after_logout().wf(),
        service.with_pending(session).wf(),
{
    lemma_exchange_outcome_wf(reply, now);
}

/// A login overwrites the secrets of an earlier one, so a redirect that answers the
/// earlier login is rejected.
pub proof fn lemma_last_login_wins(
    service: AuthServiceView,
    first: PkceSessionView,
    second: PkceSessionView,
    raw_url: Seq<char>,
)
    requires
        service.config.is_complete(),
        first.state != second.state,
        parse_callback_spec(raw_url) is Ok,
        parse_callback_spec(raw_url)->Ok_0.state == first.state,
    ensures
        service.after_login(first).callback_outcome(raw_url) is Ok,
        service.after_login(first).after_login(second).callback_outcome(raw_url) == Err::<
            crate::request::TokenRequestView,
            AuthErrorView,
        >(AuthErrorView::CsrfMismatch),
{
}

/// Unpadded URL-safe Base64 text, padded and rewritten in the standard alphabet, is the
/// padded standard text of the same bytes.
pub proof fn lemma_url_safe_text_in_standard_form(bytes: Seq<u8>)
    ensures
        in_standard_alphabet(padded(base64url_bytes(bytes))) == base64_standard(bytes),
{
    lemma_sextets_shape(bytes);
    let groups = sextets(bytes);
    let left = in_standard_alphabet(padded(base64url_bytes(bytes)));
    let right = base64_standard(bytes);
    assert(left.len() == right.len());
    assert forall|i: int| 0 <= i < left.len() implies left[i] == right[i] by {
        if i < groups.len() {
            let v = groups[i];
            assert(0 <= v < 64);
            assert(padded(base64url_bytes(bytes))[i] == url_symbol(v));
            assert(standard_byte(url_symbol(v)) == standard_symbol(v));
        } else {
            assert(padded(base64url_bytes(bytes))[i] == PAD);
            assert(right[i] == base64_padding(bytes.len())[i - groups.len()]);
        }
    }
    assert(left =~= right);
}

/// The payload segment of a token is what stands between its first dot and its second,
/// or between its first dot and its end.
pub proof fn lemma_payload_segment_of_parts(
    header: Seq<u8>,
    segment: Seq<u8>,
    signature: Option<Seq<u8>>,
)
    requires
        !header.contains(DOT),
        !segment.contains(DOT),
    ensures
        payload_segment(
            header + seq![DOT] + segment + match signature {
                Some(s) => seq![DOT] + s,
                None => seq![],
            },
        ) == Some(segment),
{
    let tail = match signature {
        Some(s) => seq![DOT] + s,
        None => seq![],
    };
    let token = header + seq![DOT] + segment + tail;
    assert forall|j: int| 0 <= j < header.len() implies token[j] != DOT by {
        assert(token[j] == header[j]);
        assert(header.contains(header[j]));
    }
    assert(token[header.len() as int] == DOT);
    lemma_first_index_is(token, DOT, header.len() as int);
    let rest = token.skip(header.len() as int + 1);
    assert(rest =~= segment + tail);
    assert forall|j: int| 0 <= j < segment.len() implies rest[j] != DOT by {
        assert(rest[j] == segment[j]);
        assert(segment.contains(segment[j]));
    }
    if signature is Some {
        assert(rest[segment.len() as int] == DOT);
    }
    lemma_first_index_is(rest, DOT, segment.len() as int);
    assert(rest.take(segment.len() as int) =~= segment);
}

/// An ID token whose payload segment is the unpadded URL-safe Base64 text of a UTF-8
/// text carries that text as its claims, whatever its header and signature are.
pub proof fn lemma_claims_of_encoded_payload(
    header: Seq<u8>,
    payload: Seq<u8>,
    signature: Option<Seq<u8>>,
)
    requires
        !header.contains(DOT),
        valid_utf8(payload),
    ensures
        claims_text(
            header + seq![DOT] + base64url_bytes(payload) + match signature {
                Some(s) => seq![DOT] + s,
                None => seq![],
            },
        ) == Some(decode_utf8(payload)),
{
    lemma_sextets_shape(payload);
    let segment = base64url_bytes(payload);
    assert(!segment.contains(DOT)) by {
        if segment.contains(DOT) {
            let i = choose|i: int| 0 <= i < segment.len() && segment[i] == DOT;
            let v = sextets(payload)[i];
            assert(0 <= v < 64);
            assert(segment[i] == url_symbol(v));
        }
    }
    lemma_payload_segment_of_parts(header, segment, signature);
    lemma_url_safe_text_in_standard_form(payload);
    lemma_base64_decode_encode(payload);
}

} // verus!
