use echo_feed::auth::{sign_token, token_gate, verify_token, AuthError, GateDecision, TokenClaims, UserId};

const ALPHABET: &str = "ABCDEFGHIJKLMNOPQRSTUVWXYZabcdefghijklmnopqrstuvwxyz0123456789-_";

fn claims(bits: u128) -> TokenClaims {
    TokenClaims { id: UserId { bits } }
}

// Flips the lowest bit of the six that the signature character at `pos` encodes.
fn flip_signature_bit(token: &str, pos: usize) -> String {
    let dot = token.rfind('.').unwrap();
    let mut chars: Vec<char> = token.chars().collect();
    let c = chars[dot + 1 + pos];
    let i = ALPHABET.find(c).unwrap();
    chars[dot + 1 + pos] = ALPHABET.as_bytes()[i ^ 1] as char;
    chars.into_iter().collect()
}

#[test]
fn signed_token_verifies_with_same_secret() {
    let c = claims(0x0123_4567_89ab_cdef_0123_4567_89ab_cdef);
    let token = sign_token(&c, b"first secret").unwrap();
    assert_eq!(token.split('.').count(), 3);
    assert_eq!(verify_token(&token, b"first secret"), Ok(c));
}

#[test]
fn signing_is_deterministic() {
    let c = claims(42);
    assert_eq!(sign_token(&c, b"k").unwrap(), sign_token(&c, b"k").unwrap());
    assert_ne!(sign_token(&c, b"k").unwrap(), sign_token(&claims(43), b"k").unwrap());
}

#[test]
fn token_fails_under_another_secret() {
    let token = sign_token(&claims(7), b"secret one").unwrap();
    assert_eq!(verify_token(&token, b"secret two"), Err(AuthError::InvalidSignature));
}

#[test]
fn token_with_flipped_signature_bit_fails() {
    let token = sign_token(&claims(7), b"secret").unwrap();
    for pos in 0..10 {
        let bad = flip_signature_bit(&token, pos);
        assert_ne!(bad, token);
        assert_eq!(verify_token(&bad, b"secret"), Err(AuthError::InvalidSignature));
    }
}

#[test]
fn verification_depends_on_token_and_secret_only() {
    let token = sign_token(&claims(5), b"s").unwrap();
    let first = verify_token(&token, b"s");
    let _ = verify_token("other.token.here", b"s");
    assert_eq!(verify_token(&token, b"s"), first);
}

#[test]
fn malformed_tokens_fail() {
    assert_eq!(verify_token("", b"s"), Err(AuthError::InvalidSignature));
    assert_eq!(verify_token("not a token", b"s"), Err(AuthError::InvalidSignature));
    assert_eq!(verify_token("a.b.c.d", b"s"), Err(AuthError::InvalidSignature));
}

#[test]
fn gate_challenges_missing_credential() {
    assert_eq!(token_gate(None, b"secret"), GateDecision::Challenge);
    assert_eq!(token_gate(None, b""), GateDecision::Challenge);
}

#[test]
fn gate_admits_valid_token_and_challenges_others() {
    let c = claims(99);
    let token = sign_token(&c, b"secret").unwrap();
    assert_eq!(token_gate(Some(&token), b"secret"), GateDecision::Admit(c));
    assert_eq!(token_gate(Some(&token), b"other"), GateDecision::Challenge);
    assert_eq!(token_gate(Some("garbage"), b"secret"), GateDecision::Challenge);
}
