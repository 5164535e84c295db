//! Stateless bearer tokens bound to a user identity, and the guard that admits
//! requests into the protected routes.
use vstd::prelude::*;

use crate::text::uuid_text;

verus! {

/// A user's 128-bit identifier.
#[derive(Debug, Clone, Copy, PartialEq, Eq, Structural)]
pub struct UserId {
    pub bits: u128,
}

/// What a token carries: the identity it was issued to.
#[derive(Debug, Clone, Copy, PartialEq, Eq, Structural)]
pub struct TokenClaims {
    pub id: UserId,
}

/// Why a token could not be issued or accepted.
#[derive(Debug, Clone, Copy, PartialEq, Eq, Structural)]
pub enum AuthError {
    /// The token is malformed or its tag does not match the secret.
    InvalidSignature,
    /// No token could be made with the secret.
    SigningFailed,
}

/// The outcome of the guard in front of a protected route.
#[derive(Debug, Clone, Copy, PartialEq, Eq, Structural)]
pub enum GateDecision {
    /// The request goes on, with this verified identity attached.
    Admit(TokenClaims),
    /// The request is answered with an authentication challenge.
    Challenge,
}

/// The token that jwt signs with HMAC-SHA256 under `secret` for claims that
/// hold `subject` as their `id`.
pub uninterp spec fn signed_token_of(secret: Seq<u8>, subject: Seq<char>) -> Seq<char>;

/// The `id` claim that jwt hands back when it verifies `token` under `secret`
/// into a claims map, if it does.
pub uninterp spec fn verified_subject_of(secret: Seq<u8>, token: Seq<char>) -> Option<Seq<char>>;

/// The HMAC-SHA256 tag of the UTF-8 bytes of `input` under `secret`.
pub uninterp spec fn hmac_sha256_of(secret: Seq<u8>, input: Seq<char>) -> Seq<u8>;

/// The bytes that base64 decodes from `text` with the URL-safe alphabet, if
/// it decodes.
pub uninterp spec fn base64url_bytes_of(text: Seq<char>) -> Option<Seq<u8>>;

/// The identifier that uuid parses from `text`, if it parses.
pub uninterp spec fn parsed_uuid_of(text: Seq<char>) -> Option<u128>;

/// The token issued under `secret` to the user with identifier `bits`.
pub open spec fn token_for(secret: Seq<u8>, bits: u128) -> Seq<char> {
    signed_token_of(secret, uuid_text(bits))
}

/// The number of `.` separators in `s`.
pub open spec fn dot_count(s: Seq<char>) -> nat
    decreases s.len(),
{
    if s.len() == 0 {
        0
    } else {
        dot_count(s.drop_last()) + if s.last() == '.' {
            1nat
        } else {
            0nat
        }
    }
}

/// The text after the last `.` of a token: its signature part.
pub open spec fn signature_part(s: Seq<char>) -> Seq<char>
    decreases s.len(),
{
    if s.len() == 0 {
        seq![]
    } else if s.last() == '.' {
        seq![]
    } else {
        signature_part(s.drop_last()).push(s.last())
    }
}

/// The text before the last `.` of a token: the header and claims parts that
/// the signature covers.
pub open spec fn signing_input(s: Seq<char>) -> Seq<char>
    decreases s.len(),
{
    if s.len() == 0 {
        seq![]
    } else if s.last() == '.' {
        s.drop_last()
    } else {
        signing_input(s.drop_last())
    }
}

/// `token` has three parts, and its signature part decodes to the HMAC tag
/// of the other two under `secret`.
pub open spec fn well_signed(secret: Seq<u8>, token: Seq<char>) -> bool {
    dot_count(token) == 2 && base64url_bytes_of(signature_part(token)) == Some(
        hmac_sha256_of(secret, signing_input(token)),
    )
}

/// The text of an optional string.
pub open spec fn opt_text(o: Option<String>) -> Option<Seq<char>> {
    match o {
        Some(s) => Some(s@),
        None => None,
    }
}

/// The text of an optional credential.
pub open spec fn opt_str_text(o: Option<&str>) -> Option<Seq<char>> {
    match o {
        Some(s) => Some(s@),
        None => None,
    }
}

/// Relies on hmac's `Mac::new_from_slice`, which accepts a key of any length,
/// and on jwt's `SignWithKey` for a claims map `{"id": subject}`, which takes
/// the header's algorithm from the key and cannot fail on a map of strings:
/// a token always comes back, and it depends on the secret and the subject
/// alone.
#[verifier::external_body]
fn jwt_sign(secret: &[u8], subject: &str) -> (r: Option<String>)
    ensures
        r is Some && r.unwrap()@ == signed_token_of(secret@, subject@),
{
    let key: hmac::Hmac<sha2::Sha256> = hmac::Mac::new_from_slice(secret).ok()?;
    let mut claims = std::collections::BTreeMap::new();
    claims.insert("id", subject);
    jwt::SignWithKey::sign_with_key(claims, &key).ok()
}

/// Relies on hmac's `Mac::new_from_slice` and on jwt's `VerifyWithKey` into a
/// claims map, of which the `id` claim is taken. jwt splits the token on `.`
/// into exactly three parts, decodes the last with base64 (URL-safe) and
/// accepts only when those bytes are the HMAC-SHA256 tag of the text before
/// the last `.`; the result depends on the secret and the token alone. A
/// token that jwt signed under the same secret for a subject verifies and
/// hands that subject back.
#[verifier::external_body]
fn jwt_verify(secret: &[u8], token: &str) -> (r: Option<String>)
    ensures
        opt_text(r) == verified_subject_of(secret@, token@),
        r is Some ==> dot_count(token@) == 2 && base64url_bytes_of(signature_part(token@)) == Some(
            hmac_sha256_of(secret@, signing_input(token@)),
        ),
        forall|subject: Seq<char>| #[trigger]
            signed_token_of(secret@, subject) == token@ ==> r is Some && r.unwrap()@ == subject,
{
    let key: hmac::Hmac<sha2::Sha256> = hmac::Mac::new_from_slice(secret).ok()?;
    let claims: std::collections::BTreeMap<String, String> = jwt::VerifyWithKey::verify_with_key(
        token,
        &key,
    ).ok()?;
    claims.get("id").cloned()
}

/// Relies on uuid's `Uuid::from_u128` and its `Display`, which writes the
/// hyphenated lowercase form, most significant digit first.
#[verifier::external_body]
fn format_uuid(bits: u128) -> (r: String)
    ensures
        r@ == uuid_text(bits),
{
    uuid::Uuid::from_u128(bits).to_string()
}

/// Relies on uuid's `Uuid::try_parse`, which depends on the text alone and
/// accepts the hyphenated form among others, and `Uuid::as_u128`.
#[verifier::external_body]
fn parse_uuid(s: &str) -> (r: Option<u128>)
    ensures
        r == parsed_uuid_of(s@),
        forall|bits: u128| #[trigger] uuid_text(bits) == s@ ==> r == Some(bits),
{
    uuid::Uuid::try_parse(s).ok().map(|u| u.as_u128())
}

/// Signs the claims with the secret: the token that the secret gives the
/// claimed identity.
pub fn sign_token(claims: &TokenClaims, secret: &[u8]) -> (r: Result<String, AuthError>)
    ensures
        r matches Ok(t) && t@ == token_for(secret@, claims.id.bits),
{
    let subject = format_uuid(claims.id.bits);
    match jwt_sign(secret, subject.as_str()) {
        Some(t) => Ok(t),
        None => Err(AuthError::SigningFailed),
    }
}

/// What verifying `token` under `secret` gives: the identity in its `id`
/// claim when jwt accepts it and the claim is an identifier, else an invalid
/// signature.
pub open spec fn verify_of(secret: Seq<u8>, token: Seq<char>) -> Result<TokenClaims, AuthError> {
    match verified_subject_of(secret, token) {
        Some(subject) => match parsed_uuid_of(subject) {
            Some(bits) => Ok(TokenClaims { id: UserId { bits } }),
            None => Err(AuthError::InvalidSignature),
        },
        None => Err(AuthError::InvalidSignature),
    }
}

/// Verifies a token against the secret. The outcome depends on the token and
/// the secret alone. A token issued under this secret is accepted with the
/// identity it was issued to; a token without exactly three parts, or whose
/// signature is not the tag of the rest under this secret, is rejected as an
/// invalid signature.
pub fn verify_token(token: &str, secret: &[u8]) -> (r: Result<TokenClaims, AuthError>)
    ensures
        r == verify_of(secret@, token@),
        forall|bits: u128|
            #[trigger] token_for(secret@, bits) == token@ ==> r == Ok::<TokenClaims, AuthError>(
                (TokenClaims { id: UserId { bits } }),
            ),
        dot_count(token@) != 2 ==> r == Err::<TokenClaims, AuthError>(AuthError::InvalidSignature),
        !well_signed(secret@, token@) ==> r == Err::<TokenClaims, AuthError>(
            AuthError::InvalidSignature,
        ),
        r is Err ==> r == Err::<TokenClaims, AuthError>(AuthError::InvalidSignature),
{
    let subject = match jwt_verify(secret, token) {
        Some(s) => s,
        None => return Err(AuthError::InvalidSignature),
    };
    match parse_uuid(subject.as_str()) {
        Some(bits) => Ok(TokenClaims { id: UserId { bits } }),
        None => Err(AuthError::InvalidSignature),
    }
}

/// What the guard decides for a credential: challenge when there is none or
/// it does not verify, else admit with the verified identity.
pub open spec fn gate_of(credential: Option<Seq<char>>, secret: Seq<u8>) -> GateDecision {
    match credential {
        None => GateDecision::Challenge,
        Some(t) => match verify_of(secret, t) {
            Ok(c) => GateDecision::Admit(c),
            Err(_) => GateDecision::Challenge,
        },
    }
}

/// The guard of the protected routes: a function of the credential and the
/// secret alone. A request without a bearer credential is always challenged;
/// one whose token the secret issued is admitted with that identity; one
/// whose token is malformed or not signed with the secret is challenged.
pub fn token_gate(credential: Option<&str>, secret: &[u8]) -> (r: GateDecision)
    ensures
        r == gate_of(opt_str_text(credential), secret@),
        credential is None ==> r == GateDecision::Challenge,
        forall|bits: u128|
            credential matches Some(t) && #[trigger] token_for(secret@, bits) == t@ ==> r
                == GateDecision::Admit((TokenClaims { id: UserId { bits } })),
        credential matches Some(t) && !well_signed(secret@, t@) ==> r == GateDecision::Challenge,
        r is Admit ==> credential is Some,
{
    match credential {
        None => GateDecision::Challenge,
        Some(t) => match verify_token(t, secret) {
            Ok(claims) => GateDecision::Admit(claims),
            Err(_) => GateDecision::Challenge,
        },
    }
}

} // verus!
