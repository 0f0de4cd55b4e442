//! The calls into `jsonwebtoken` that the token logic makes: HS256 signing of
//! the claims `sub` and `exp`, and checking a token's signature.
//!
//! What decoding returns is a function of the token and the secret alone
//! (no clock is read here: expiry is decided by the caller), and is named
//! [`jwt_claims`].

use vstd::prelude::*;
use jsonwebtoken::errors::{Error as JwtError, ErrorKind};
use jsonwebtoken::{Algorithm, DecodingKey, EncodingKey, Header, Validation};
use crate::claims::VerifyError;

verus! {

#[verifier::external_type_specification]
#[verifier::external_body]
pub struct ExJwtError(JwtError);

/// What `jsonwebtoken::decode` makes of `token` under the HS256 `secret`,
/// with no time-based check: either the claims `sub` and `exp`, or the
/// reason for refusal (`SignatureMismatch` for a bad signature,
/// `MalformedToken` for any other fault).
pub uninterp spec fn jwt_claims(token: Seq<char>, secret: Seq<u8>) -> Result<(Seq<char>, u64), VerifyError>;

/// The token that `jsonwebtoken::encode` makes, with the default header
/// (HS256), of the claims `sub` = `subject` and `exp` = `expires_at` under
/// `secret`.
pub uninterp spec fn jwt_encoded(subject: Seq<char>, expires_at: u64, secret: Seq<u8>) -> Seq<char>;

/// A decoding that gave the claims `sub` and `exp`.
pub open spec fn decoded(claims: (Seq<char>, u64)) -> Result<(Seq<char>, u64), VerifyError> {
    Ok(claims)
}

/// The view of decoded claims.
pub open spec fn claims_view(claims: Result<(String, u64), VerifyError>) -> Result<(Seq<char>, u64), VerifyError> {
    match claims {
        Ok((subject, expires_at)) => Ok((subject@, expires_at)),
        Err(e) => Err(e),
    }
}

/// `tampered` is `genuine` with its signature segment (what follows the
/// last `.`) replaced by a different one: both are `message.signature`
/// with the same message and signatures that differ and hold no `.`.
pub open spec fn resigned(genuine: Seq<char>, tampered: Seq<char>) -> bool {
    exists|message: Seq<char>, sig: Seq<char>, other: Seq<char>|
        genuine == message + seq!['.'] + sig && tampered == message + seq!['.'] + other
            && sig != other && !sig.contains('.') && !other.contains('.')
}

/// Relies on `jsonwebtoken::encode` with the default header (HS256) and
/// `EncodingKey::from_secret`. With an HMAC key and a string-keyed JSON map
/// it cannot fail; the result depends on its arguments alone; it is three
/// base64url segments joined by `.`, so it holds no space; and, decoded
/// under the same secret, it gives back the claims it was given.
#[verifier::external_body]
pub(crate) fn encode_hs256(subject: &str, expires_at: u64, secret: &[u8]) -> (r: Result<String, JwtError>)
    ensures
        r is Ok,
        r is Ok ==> r->Ok_0@ == jwt_encoded(subject@, expires_at, secret@),
        r is Ok ==> !r->Ok_0@.contains(' '),
        r is Ok ==> jwt_claims(r->Ok_0@, secret@) == decoded((subject@, expires_at)),
{
    let mut claims = serde_json::Map::new();
    claims.insert("sub".to_string(), serde_json::Value::from(subject));
    claims.insert("exp".to_string(), serde_json::Value::from(expires_at));
    jsonwebtoken::encode(&Header::default(), &claims, &EncodingKey::from_secret(secret))
}

/// Relies on `jsonwebtoken::decode` under `Validation::new(HS256)` with the
/// expiry check switched off: it checks the token's structure, algorithm
/// and signature, and reads the claims `sub` (a string) and `exp` (an
/// unsigned integer). For HS256 the signature check signs the message again
/// and compares the text of the signature segment, so once one signature
/// of a message is accepted, any other signature of that message is refused
/// as `InvalidSignature`.
#[verifier::external_body]
pub(crate) fn decode_hs256(token: &str, secret: &[u8]) -> (r: Result<(String, u64), VerifyError>)
    ensures
        claims_view(r) == jwt_claims(token@, secret@),
        forall|genuine: Seq<char>|
            resigned(genuine, token@) && (#[trigger] jwt_claims(genuine, secret@)) is Ok
                ==> r is Err && r->Err_0 == VerifyError::SignatureMismatch,
{
    let mut validation = Validation::new(Algorithm::HS256);
    validation.validate_exp = false;
    match jsonwebtoken::decode::<serde_json::Value>(token, &DecodingKey::from_secret(secret), &validation) {
        Ok(data) => match (data.claims["sub"].as_str(), data.claims["exp"].as_u64()) {
            (Some(sub), Some(exp)) => Ok((sub.to_string(), exp)),
            _ => Err(VerifyError::MalformedToken),
        },
        Err(e) => match e.kind() {
            ErrorKind::InvalidSignature => Err(VerifyError::SignatureMismatch),
            _ => Err(VerifyError::MalformedToken),
        },
    }
}

} // verus!
