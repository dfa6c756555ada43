use base64::Engine;
use vibede_core::error::AuthError;
use vibede_core::json::JsonMember;
use vibede_core::token::decode_id_token;
use vibede_core::token::exchange_outcome;
use vibede_core::token::expiry;
use vibede_core::token::payload_base64;
use vibede_core::token::read_token_response;
use vibede_core::token::token_fields;
use vibede_core::token::user_from_claims;
use vibede_core::token::ExchangeReply;

fn jwt(payload: &str) -> String {
    let engine = base64::engine::general_purpose::URL_SAFE_NO_PAD;
    format!(
        "{}.{}.{}",
        engine.encode("{\"alg\":\"none\"}"),
        engine.encode(payload),
        "signature"
    )
}

fn text(s: &str) -> JsonMember {
    JsonMember::Text(s.to_string())
}

fn body(access: &str, id: &str, rest: &str) -> String {
    format!("{{\"access_token\":\"{}\",\"id_token\":\"{}\"{}}}", access, id, rest)
}

#[test]
fn token_fields_with_all_members() {
    let tokens = token_fields(text("a"), text("i"), JsonMember::Unsigned(7200)).unwrap();
    assert_eq!(tokens.access_token, "a");
    assert_eq!(tokens.id_token, "i");
    assert_eq!(tokens.expires_in, 7200);
}

#[test]
fn token_fields_default_lifetime() {
    assert_eq!(token_fields(text("a"), text("i"), JsonMember::Other).unwrap().expires_in, 3600);
    assert_eq!(token_fields(text("a"), text("i"), text("60")).unwrap().expires_in, 3600);
    assert_eq!(token_fields(text("a"), text("i"), JsonMember::Invalid).unwrap().expires_in, 3600);
    assert_eq!(token_fields(text("a"), text("i"), JsonMember::Unsigned(0)).unwrap().expires_in, 0);
}

#[test]
fn token_fields_missing_tokens() {
    assert_eq!(
        token_fields(JsonMember::Other, text("i"), JsonMember::Unsigned(1)),
        Err(AuthError::MissingToken)
    );
    assert_eq!(
        token_fields(text("a"), JsonMember::Other, JsonMember::Unsigned(1)),
        Err(AuthError::MissingToken)
    );
    assert_eq!(
        token_fields(JsonMember::Unsigned(5), text("i"), JsonMember::Other),
        Err(AuthError::MissingToken)
    );
    assert_eq!(
        token_fields(JsonMember::Invalid, JsonMember::Invalid, JsonMember::Invalid),
        Err(AuthError::MissingToken)
    );
}

#[test]
fn response_with_tokens_and_lifetime() {
    let tokens = read_token_response(200, &body("AT", "IT", ",\"expires_in\":7200")).unwrap();
    assert_eq!(tokens.access_token, "AT");
    assert_eq!(tokens.id_token, "IT");
    assert_eq!(tokens.expires_in, 7200);
}

#[test]
fn response_without_lifetime_defaults_to_an_hour() {
    assert_eq!(read_token_response(200, &body("AT", "IT", "")).unwrap().expires_in, 3600);
    assert_eq!(
        read_token_response(200, &body("AT", "IT", ",\"expires_in\":\"7200\"")).unwrap().expires_in,
        3600
    );
    assert_eq!(
        read_token_response(200, &body("AT", "IT", ",\"expires_in\":-5")).unwrap().expires_in,
        3600
    );
    assert_eq!(
        read_token_response(200, &body("AT", "IT", ",\"expires_in\":1.5")).unwrap().expires_in,
        3600
    );
}

#[test]
fn response_status_outside_2xx_fails_with_status_and_body() {
    for status in [0u16, 100, 199, 300, 302, 400, 401, 403, 500, 65535] {
        assert_eq!(
            read_token_response(status, "denied"),
            Err(AuthError::TokenExchangeFailed { status, body: "denied".to_string() })
        );
    }
}

#[test]
fn response_status_within_2xx_is_read() {
    for status in [200u16, 201, 204, 299] {
        assert!(read_token_response(status, &body("AT", "IT", "")).is_ok());
    }
}

#[test]
fn response_missing_access_token() {
    assert_eq!(read_token_response(200, "{\"id_token\":\"IT\"}"), Err(AuthError::MissingToken));
    assert_eq!(
        read_token_response(200, "{\"access_token\":5,\"id_token\":\"IT\"}"),
        Err(AuthError::MissingToken)
    );
    assert_eq!(
        read_token_response(200, "{\"access_token\":null,\"id_token\":\"IT\"}"),
        Err(AuthError::MissingToken)
    );
}

#[test]
fn response_missing_id_token() {
    assert_eq!(read_token_response(200, "{\"access_token\":\"AT\"}"), Err(AuthError::MissingToken));
}

#[test]
fn response_that_is_no_json_object() {
    assert_eq!(read_token_response(200, ""), Err(AuthError::MissingToken));
    assert_eq!(read_token_response(200, "not json"), Err(AuthError::MissingToken));
    assert_eq!(read_token_response(200, "[1,2]"), Err(AuthError::MissingToken));
    assert_eq!(read_token_response(200, "\"access_token\""), Err(AuthError::MissingToken));
}

#[test]
fn payload_is_cut_padded_and_rewritten() {
    assert_eq!(payload_base64(b"a.bcd.e"), Some(b"bcd=".to_vec()));
    assert_eq!(payload_base64(b"a.bc.e"), Some(b"bc==".to_vec()));
    assert_eq!(payload_base64(b"a.b.e"), Some(b"b===".to_vec()));
    assert_eq!(payload_base64(b"a.bcde.e"), Some(b"bcde".to_vec()));
    assert_eq!(payload_base64(b"a.-_-_"), Some(b"+/+/".to_vec()));
    assert_eq!(payload_base64(b"a."), Some(Vec::new()));
    assert_eq!(payload_base64(b"a..c"), Some(Vec::new()));
    assert_eq!(payload_base64(b".x"), Some(b"x===".to_vec()));
    assert_eq!(payload_base64(b"abc"), None);
    assert_eq!(payload_base64(b""), None);
}

#[test]
fn id_token_with_all_claims() {
    let token = jwt(
        "{\"sub\":\"abc123\",\"name\":\"A\",\"email\":\"a@x.com\",\"picture\":\"http://p/1.png\"}",
    );
    let user = decode_id_token(&token).unwrap();
    assert_eq!(user.sub, "abc123");
    assert_eq!(user.name, Some("A".to_string()));
    assert_eq!(user.email, Some("a@x.com".to_string()));
    assert_eq!(user.picture, Some("http://p/1.png".to_string()));
}

#[test]
fn id_token_with_subject_only() {
    let user = decode_id_token(&jwt("{\"sub\":\"u\",\"name\":7}")).unwrap();
    assert_eq!(user.sub, "u");
    assert_eq!(user.name, None);
    assert_eq!(user.email, None);
    assert_eq!(user.picture, None);
}

#[test]
fn id_token_of_two_segments() {
    let engine = base64::engine::general_purpose::URL_SAFE_NO_PAD;
    let token = format!("h.{}", engine.encode("{\"sub\":\"two\"}"));
    assert_eq!(decode_id_token(&token).unwrap().sub, "two");
}

#[test]
fn id_token_with_url_safe_symbols_in_payload() {
    let payload = "{\"sub\":\"???>>>~~~\",\"name\":\"üñî\"}";
    let token = jwt(payload);
    let segment: &str = token.split('.').nth(1).unwrap();
    assert!(segment.contains('-') || segment.contains('_'));
    let user = decode_id_token(&token).unwrap();
    assert_eq!(user.sub, "???>>>~~~");
    assert_eq!(user.name, Some("üñî".to_string()));
}

#[test]
fn id_token_with_padded_payload_is_accepted() {
    let engine = base64::engine::general_purpose::URL_SAFE;
    let token = format!("h.{}.s", engine.encode("{\"sub\":\"pad\"}"));
    assert!(token.contains('='));
    assert_eq!(decode_id_token(&token).unwrap().sub, "pad");
}

#[test]
fn id_token_without_a_dot() {
    assert_eq!(decode_id_token("abcdef"), Err(AuthError::InvalidIdToken));
    assert_eq!(decode_id_token(""), Err(AuthError::InvalidIdToken));
}

#[test]
fn id_token_whose_payload_is_no_base64() {
    assert_eq!(decode_id_token("h.@@@@.s"), Err(AuthError::InvalidIdToken));
    assert_eq!(decode_id_token("h.a.s"), Err(AuthError::InvalidIdToken));
    assert_eq!(decode_id_token("h.ab=c.s"), Err(AuthError::InvalidIdToken));
}

#[test]
fn id_token_whose_payload_has_trailing_bits() {
    assert_eq!(decode_id_token("h.e30.s"), Err(AuthError::MissingSubjectClaim));
    assert_eq!(decode_id_token("h.e31.s"), Err(AuthError::InvalidIdToken));
}

#[test]
fn id_token_whose_payload_is_no_utf8() {
    let engine = base64::engine::general_purpose::URL_SAFE_NO_PAD;
    let token = format!("h.{}.s", engine.encode([0xffu8, 0xfe, 0x80]));
    assert_eq!(decode_id_token(&token), Err(AuthError::InvalidIdToken));
}

#[test]
fn id_token_whose_payload_is_no_json() {
    assert_eq!(decode_id_token(&jwt("sub=abc")), Err(AuthError::InvalidIdToken));
    assert_eq!(decode_id_token("h..s"), Err(AuthError::InvalidIdToken));
}

#[test]
fn id_token_without_subject() {
    assert_eq!(decode_id_token(&jwt("{\"name\":\"A\"}")), Err(AuthError::MissingSubjectClaim));
    assert_eq!(decode_id_token(&jwt("{\"sub\":12}")), Err(AuthError::MissingSubjectClaim));
    assert_eq!(decode_id_token(&jwt("[]")), Err(AuthError::MissingSubjectClaim));
}

#[test]
fn user_from_claims_cases() {
    assert_eq!(
        user_from_claims(JsonMember::Invalid, text("n"), text("e"), text("p")),
        Err(AuthError::InvalidIdToken)
    );
    assert_eq!(
        user_from_claims(JsonMember::Other, text("n"), text("e"), text("p")),
        Err(AuthError::MissingSubjectClaim)
    );
    assert_eq!(
        user_from_claims(JsonMember::Unsigned(1), text("n"), text("e"), text("p")),
        Err(AuthError::MissingSubjectClaim)
    );
    let user =
        user_from_claims(text("s"), JsonMember::Other, text("e"), JsonMember::Unsigned(3)).unwrap();
    assert_eq!(user.sub, "s");
    assert_eq!(user.name, None);
    assert_eq!(user.email, Some("e".to_string()));
    assert_eq!(user.picture, None);
}

#[test]
fn expiry_adds_and_saturates() {
    assert_eq!(expiry(1000, 7200), 8200);
    assert_eq!(expiry(0, 0), 0);
    assert_eq!(expiry(u64::MAX, 0), u64::MAX);
    assert_eq!(expiry(u64::MAX - 1, 1), u64::MAX);
    assert_eq!(expiry(u64::MAX, 1), u64::MAX);
    assert_eq!(expiry(5, u64::MAX), u64::MAX);
}

#[test]
fn exchange_outcome_of_a_valid_reply() {
    let token = jwt("{\"sub\":\"abc123\",\"name\":\"A\",\"email\":\"a@x.com\"}");
    let reply = ExchangeReply::Response {
        status: 200,
        body: body("AT", &token, ",\"expires_in\":7200"),
    };
    let state = exchange_outcome(reply, 1_700_000_000).unwrap();
    assert!(state.authenticated);
    assert_eq!(state.access_token, Some("AT".to_string()));
    assert_eq!(state.id_token, Some(token));
    assert_eq!(state.expires_at, Some(1_700_007_200));
    let user = state.user_info.unwrap();
    assert_eq!(user.sub, "abc123");
    assert_eq!(user.name, Some("A".to_string()));
    assert_eq!(user.email, Some("a@x.com".to_string()));
    assert_eq!(user.picture, None);
}

#[test]
fn exchange_outcome_of_failures() {
    assert_eq!(
        exchange_outcome(ExchangeReply::Unreachable("refused".to_string()), 1),
        Err(AuthError::NetworkError("refused".to_string()))
    );
    assert_eq!(
        exchange_outcome(ExchangeReply::Response { status: 403, body: "no".to_string() }, 1),
        Err(AuthError::TokenExchangeFailed { status: 403, body: "no".to_string() })
    );
    assert_eq!(
        exchange_outcome(ExchangeReply::Response { status: 200, body: "{}".to_string() }, 1),
        Err(AuthError::MissingToken)
    );
    assert_eq!(
        exchange_outcome(
            ExchangeReply::Response { status: 200, body: body("AT", "nodots", "") },
            1
        ),
        Err(AuthError::InvalidIdToken)
    );
    assert_eq!(
        exchange_outcome(
            ExchangeReply::Response { status: 200, body: body("AT", &jwt("{}"), "") },
            1
        ),
        Err(AuthError::MissingSubjectClaim)
    );
}

#[test]
fn exchange_outcome_with_huge_lifetime_saturates() {
    let reply = ExchangeReply::Response {
        status: 200,
        body: body("AT", &jwt("{\"sub\":\"s\"}"), ",\"expires_in\":18446744073709551615"),
    };
    assert_eq!(exchange_outcome(reply, 10).unwrap().expires_at, Some(u64::MAX));
}
