use vibede_core::pkce::generate_code_challenge;
use vibede_core::pkce::generate_random_string;
use vibede_core::pkce::PkceSession;

fn is_base64url(c: char) -> bool {
    c.is_ascii_alphanumeric() || c == '-' || c == '_'
}

#[test]
fn challenge_of_the_rfc_7636_example() {
    let challenge = generate_code_challenge("dBjftJeZ4CVP-mB92K27uhbUJU1p1r_wW1gFWFOEjXk");
    assert_eq!(challenge, "E9Melhoa2OwvFrEMTJguCHaoeK1t8URWbuGJSstw-cM");
}

#[test]
fn challenge_of_the_empty_verifier() {
    assert_eq!(
        generate_code_challenge(""),
        "47DEQpj8HBSa-_TImW-5JCeuQeRkm5NMpJWZG3hSuFU"
    );
}

#[test]
fn challenge_is_deterministic() {
    let verifier = "a".repeat(64);
    assert_eq!(
        generate_code_challenge(&verifier),
        generate_code_challenge(&verifier)
    );
}

#[test]
fn challenge_has_43_url_safe_characters() {
    for seed in 0..50u32 {
        let verifier: String = (0..64)
            .map(|i| char::from(b'A' + ((seed + i) % 26) as u8))
            .collect();
        let challenge = generate_code_challenge(&verifier);
        assert_eq!(challenge.len(), 43);
        assert!(challenge.chars().all(is_base64url));
        assert!(!challenge.contains('+'));
        assert!(!challenge.contains('/'));
        assert!(!challenge.contains('='));
    }
}

#[test]
fn challenge_of_non_ascii_verifier_hashes_its_utf8_bytes() {
    let challenge = generate_code_challenge("é");
    assert_eq!(challenge.len(), 43);
    assert_ne!(challenge, generate_code_challenge("e"));
}

#[test]
fn random_string_has_requested_length() {
    assert_eq!(generate_random_string(0), "");
    assert_eq!(generate_random_string(1).len(), 1);
    assert_eq!(generate_random_string(32).len(), 32);
    assert_eq!(generate_random_string(64).len(), 64);
    assert_eq!(generate_random_string(1000).len(), 1000);
}

#[test]
fn random_string_is_alphanumeric() {
    let s = generate_random_string(4096);
    assert!(s.chars().all(|c| c.is_ascii_alphanumeric()));
}

#[test]
fn random_strings_differ() {
    assert_ne!(generate_random_string(64), generate_random_string(64));
}

#[test]
fn generated_session_has_state_of_32_and_verifier_of_64() {
    let session = PkceSession::generate();
    assert_eq!(session.state.len(), 32);
    assert_eq!(session.code_verifier.len(), 64);
    assert!(session.state.chars().all(|c| c.is_ascii_alphanumeric()));
    assert!(session.code_verifier.chars().all(|c| c.is_ascii_alphanumeric()));
    assert_eq!(
        session.challenge(),
        generate_code_challenge(&session.code_verifier)
    );
}
