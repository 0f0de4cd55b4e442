//! Issuing and verifying tokens.
//!
//! [`create_token_at`] and [`verify_token_at`] take the current time as an
//! argument and are exact functions of their inputs; [`create_token`] and
//! [`verify_token`] read the wall clock and pass its reading on.

use vstd::prelude::*;
use crate::claims::{
    expiry_for, verified_view, Credential, CredentialView, IssueError, VerifyError,
    TOKEN_LIFETIME_SECS,
};
use crate::jwt::{
    claims_view, decode_hs256, decoded, encode_hs256, jwt_claims, jwt_encoded, resigned,
};
use crate::key::SigningKey;

verus! {

/// `token` is what issuing to `subject` at time `now` under `secret`
/// yields: the HS256 encoding of the subject and an expiry one lifetime
/// after `now`. Such a token holds no space and decodes, under that secret,
/// to the same subject and expiry.
pub open spec fn issued_token(token: Seq<char>, secret: Seq<u8>, subject: Seq<char>, now: u64) -> bool {
    &&& token == jwt_encoded(subject, expiry_for(now) as u64, secret)
    &&& !token.contains(' ')
    &&& jwt_claims(token, secret) == decoded((subject, expiry_for(now) as u64))
}

/// The outcome of checking decoded claims at time `now`: the decoding's
/// refusal if it refused, `Expired` if the expiry is not after `now`, else
/// the credential.
pub open spec fn expiry_outcome(claims: Result<(Seq<char>, u64), VerifyError>, now: u64) -> Result<CredentialView, VerifyError> {
    match claims {
        Ok((subject, expires_at)) => if now < expires_at {
            Ok(CredentialView { subject, expires_at })
        } else {
            Err(VerifyError::Expired)
        },
        Err(e) => Err(e),
    }
}

/// The outcome of verifying `token` under `secret` at time `now`.
pub open spec fn verify_outcome(secret: Seq<u8>, token: Seq<char>, now: u64) -> Result<CredentialView, VerifyError> {
    expiry_outcome(jwt_claims(token, secret), now)
}

/// Relies on chrono's `From<SystemTime> for DateTime<Utc>` and `timestamp`:
/// the wall clock in whole seconds since the epoch, negative before it.
/// Nothing is promised of the value. (The conversion fails only for a clock
/// outside chrono's range of some 262,000 years around the epoch.)
#[verifier::external_body]
fn clock_seconds() -> (r: i64) {
    chrono::DateTime::<chrono::Utc>::from(std::time::SystemTime::now()).timestamp()
}

/// A clock reading in seconds as an unsigned time: a reading before the
/// epoch counts as the epoch.
pub fn seconds_since_epoch(reading: i64) -> (r: u64)
    ensures
        r == (if reading < 0 { 0 } else { reading as int }),
{
    if reading < 0 {
        0
    } else {
        reading as u64
    }
}

/// The wall clock in seconds since the epoch; a reading before the epoch
/// counts as the epoch.
pub fn now_seconds() -> (r: u64)
    ensures
        r <= i64::MAX,
{
    seconds_since_epoch(clock_seconds())
}

/// Issues a token for `subject` at time `now`, valid for
/// [`TOKEN_LIFETIME_SECS`]. The subject is not checked: any string is
/// accepted and carried unchanged. Issuing is a pure function of the key,
/// the subject and the time: the token is the HS256 encoding of `subject`
/// and `now + TOKEN_LIFETIME_SECS` under `key`, and decodes back to them.
pub fn create_token_at(key: &SigningKey, subject: &str, now: u64) -> (r: Result<String, IssueError>)
    requires
        now <= u64::MAX - TOKEN_LIFETIME_SECS,
    ensures
        r is Ok,
        r is Ok ==> issued_token(r->Ok_0@, key@, subject@, now),
{
    let expires_at: u64 = now + TOKEN_LIFETIME_SECS;
    match encode_hs256(subject, expires_at, key.secret()) {
        Ok(token) => Ok(token),
        Err(_) => Err(IssueError::SigningFailure),
    }
}

/// Issues a token for `subject` at the wall clock's current time.
pub fn create_token(key: &SigningKey, subject: &str) -> (r: Result<String, IssueError>)
    ensures
        r is Ok,
        r is Ok ==> exists|now: u64| #[trigger] issued_token(r->Ok_0@, key@, subject@, now),
{
    let now = now_seconds();
    let r = create_token_at(key, subject, now);
    if let Ok(t) = &r {
        assert(issued_token(t@, key@, subject@, now));
    }
    r
}

/// Verifies `token` under `key` at time `now`: its signature must match and
/// its expiry must lie after `now`, with no leeway. A token whose
/// signature segment was replaced, in a token that decodes under `key`, by
/// any other text without a `.` fails with `SignatureMismatch`.
pub fn verify_token_at(key: &SigningKey, token: &str, now: u64) -> (r: Result<Credential, VerifyError>)
    ensures
        verified_view(r) == verify_outcome(key@, token@, now),
        forall|genuine: Seq<char>|
            resigned(genuine, token@) && (#[trigger] jwt_claims(genuine, key@)) is Ok
                ==> r is Err && r->Err_0 == VerifyError::SignatureMismatch,
{
    accept_claims(decode_hs256(token, key.secret()), now)
}

/// Decides on decoded claims at time `now`: a refusal of the decoding is
/// passed on, claims whose expiry is not after `now` are `Expired`, and
/// others become the credential.
pub fn accept_claims(claims: Result<(String, u64), VerifyError>, now: u64) -> (r: Result<Credential, VerifyError>)
    ensures
        verified_view(r) == expiry_outcome(claims_view(claims), now),
{
    match claims {
        Ok((subject, expires_at)) => {
            if now < expires_at {
                Ok(Credential { subject, expires_at })
            } else {
                Err(VerifyError::Expired)
            }
        },
        Err(e) => Err(e),
    }
}

/// Verifies `token` under `key` at the wall clock's current time.
pub fn verify_token(key: &SigningKey, token: &str) -> (r: Result<Credential, VerifyError>)
    ensures
        exists|now: u64| verified_view(r) == #[trigger] verify_outcome(key@, token@, now),
{
    let now = now_seconds();
    verify_token_at(key, token, now)
}

/// A token issued at `issued_at` is accepted at any time `now` from then
/// until, not including, its expiry, and gives back the subject it was
/// issued to and an expiry one lifetime after issuance.
pub proof fn lemma_round_trip(secret: Seq<u8>, subject: Seq<char>, issued_at: u64, token: Seq<char>, now: u64)
    requires
        issued_at <= u64::MAX - TOKEN_LIFETIME_SECS,
        issued_token(token, secret, subject, issued_at),
        issued_at <= now < expiry_for(issued_at),
    ensures
        verify_outcome(secret, token, now) == Ok::<CredentialView, VerifyError>(
            CredentialView { subject, expires_at: expiry_for(issued_at) as u64 },
        ),
{
}

/// For a token whose signature is valid and whose expiry is `expires_at`,
/// verification accepts exactly while `now` is before the expiry, and
/// from the expiry on it refuses with `Expired`: no leeway is granted.
pub proof fn lemma_expiry_boundary(secret: Seq<u8>, token: Seq<char>, subject: Seq<char>, expires_at: u64, now: u64)
    requires
        jwt_claims(token, secret) == decoded((subject, expires_at)),
    ensures
        now < expires_at ==> verify_outcome(secret, token, now) == Ok::<CredentialView, VerifyError>(
            CredentialView { subject, expires_at },
        ),
        expires_at <= now ==> verify_outcome(secret, token, now) == Err::<CredentialView, VerifyError>(
            VerifyError::Expired,
        ),
{
}

} // verus!
