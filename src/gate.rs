//! The request gate: from the value of a request's `authorization` header
//! to an authorized credential or a rejection.
//!
//! Every refusal of the verifier gives the same `Rejected` outcome, so the
//! response cannot tell an expired token from a forged one.

use vstd::prelude::*;
use crate::claims::{Credential, CredentialView, TOKEN_LIFETIME_SECS, expiry_for};
use crate::key::SigningKey;
use crate::token::{issued_token, now_seconds, verify_outcome, verify_token_at};

verus! {

/// The scheme word that may stand before the token in the header value.
pub const BEARER_PREFIX: &'static str = "Bearer ";

/// `s` begins with `prefix`.
pub open spec fn starts_with(s: Seq<char>, prefix: Seq<char>) -> bool {
    prefix.len() <= s.len() && s.subrange(0, prefix.len() as int) == prefix
}

/// The token that a header value carries: the value without a leading
/// `Bearer `, or the whole value when it has no such prefix.
pub open spec fn bearer_token(value: Seq<char>) -> Seq<char> {
    if starts_with(value, BEARER_PREFIX@) {
        value.subrange(BEARER_PREFIX@.len() as int, value.len() as int)
    } else {
        value
    }
}

/// The decision for header value `header` (`None`: no
/// `authorization` header) under `secret` at time `now`: the credential
/// when authorized, `None` when rejected.
pub open spec fn gate_outcome(secret: Seq<u8>, header: Option<Seq<char>>, now: u64) -> Option<CredentialView> {
    match header {
        None => None,
        Some(value) => match verify_outcome(secret, bearer_token(value), now) {
            Ok(c) => Some(c),
            Err(_) => None,
        },
    }
}

/// The view of an optional header value.
pub open spec fn header_view(header: Option<&str>) -> Option<Seq<char>> {
    match header {
        Some(v) => Some(v@),
        None => None,
    }
}

/// What was decided for one request.
#[derive(Debug)]
pub enum AuthOutcome {
    /// The request goes on to the protected handler with this credential.
    Authorized(Credential),
    /// The request is refused as unauthorized; no cause is given.
    Rejected,
}

impl View for AuthOutcome {
    type V = Option<CredentialView>;

    open spec fn view(&self) -> Option<CredentialView> {
        match self {
            AuthOutcome::Authorized(c) => Some(c@),
            AuthOutcome::Rejected => None,
        }
    }
}

/// Relies on `str::strip_prefix`: the rest of `s` after `prefix` when `s`
/// begins with `prefix`, else `None`.
#[verifier::external_body]
fn strip_prefix<'a>(s: &'a str, prefix: &str) -> (r: Option<&'a str>)
    ensures
        match r {
            Some(rest) => starts_with(s@, prefix@) && rest@ == s@.subrange(prefix@.len() as int, s@.len() as int),
            None => !starts_with(s@, prefix@),
        },
{
    s.strip_prefix(prefix)
}

/// The token in a header value: one leading `Bearer ` is removed if
/// present; otherwise the value is passed on unchanged.
pub fn strip_bearer(value: &str) -> (r: &str)
    ensures
        r@ == bearer_token(value@),
{
    match strip_prefix(value, BEARER_PREFIX) {
        Some(rest) => rest,
        None => value,
    }
}

/// Admission at time `now`: rejects a request without an `authorization`
/// header, else verifies the token that the header carries under `key`
/// and authorizes with its credential or rejects.
pub fn with_auth_at(key: &SigningKey, header: Option<&str>, now: u64) -> (r: AuthOutcome)
    ensures
        r@ == gate_outcome(key@, header_view(header), now),
{
    match header {
        None => AuthOutcome::Rejected,
        Some(value) => match verify_token_at(key, strip_bearer(value), now) {
            Ok(c) => AuthOutcome::Authorized(c),
            Err(_) => AuthOutcome::Rejected,
        },
    }
}

/// Admission at the wall clock's current time.
pub fn with_auth(key: &SigningKey, header: Option<&str>) -> (r: AuthOutcome)
    ensures
        exists|now: u64| r@ == #[trigger] gate_outcome(key@, header_view(header), now),
{
    let now = now_seconds();
    with_auth_at(key, header, now)
}

/// The header protocol: without an `authorization` header a request is
/// rejected; with `Bearer <token>`, or with the bare token (an issued
/// token holds no space, so it never begins with `Bearer `), where the token
/// was issued to `subject` at `issued_at` and `now` lies before its expiry,
/// it is authorized with a credential that names `subject`.
pub proof fn lemma_header_protocol(secret: Seq<u8>, subject: Seq<char>, issued_at: u64, token: Seq<char>, now: u64)
    requires
        issued_at <= u64::MAX - TOKEN_LIFETIME_SECS,
        issued_token(token, secret, subject, issued_at),
        issued_at <= now < expiry_for(issued_at),
    ensures
        gate_outcome(secret, None, now) is None,
        gate_outcome(secret, Some(BEARER_PREFIX@ + token), now) matches Some(c) && c.subject == subject,
        gate_outcome(secret, Some(token), now) matches Some(c) && c.subject == subject,
{
    let p = BEARER_PREFIX@;
    reveal_strlit("Bearer ");
    if starts_with(token, p) {
        assert(token[6] == p[6]);
    }
    let v = p + token;
    assert(v.subrange(0, p.len() as int) =~= p);
    assert(v.subrange(p.len() as int, v.len() as int) =~= token);
}

} // verus!
