//! The credential that a token carries, and the errors of issuing and
//! verifying tokens.

use vstd::prelude::*;

verus! {

/// How long an issued credential stays valid, in seconds (60 minutes).
pub const TOKEN_LIFETIME_SECS: u64 = 3600;

/// The moment at which a credential issued at `now` stops being valid.
pub open spec fn expiry_for(now: u64) -> int {
    now + TOKEN_LIFETIME_SECS
}

/// The decoded claims of a token: who it names and until when it is valid
/// (seconds since the epoch).
#[derive(Clone, Debug)]
pub struct Credential {
    pub subject: String,
    pub expires_at: u64,
}

/// The mathematical value of a [`Credential`].
pub struct CredentialView {
    pub subject: Seq<char>,
    pub expires_at: u64,
}

impl View for Credential {
    type V = CredentialView;

    open spec fn view(&self) -> CredentialView {
        CredentialView { subject: self.subject@, expires_at: self.expires_at }
    }
}

/// Why a token could not be issued.
#[derive(Clone, Copy, Debug, PartialEq, Eq, Structural)]
pub enum IssueError {
    /// The signing step failed: a fault of configuration, not of the client.
    SigningFailure,
}

/// Why a token was not accepted.
#[derive(Clone, Copy, Debug, PartialEq, Eq, Structural)]
pub enum VerifyError {
    /// The token cannot be decoded: wrong structure, encoding or algorithm,
    /// or claims of the wrong shape.
    MalformedToken,
    /// The token decodes but its signature does not match the key.
    SignatureMismatch,
    /// The signature is valid but the credential has expired.
    Expired,
}

/// The view of a verification result.
pub open spec fn verified_view(r: Result<Credential, VerifyError>) -> Result<CredentialView, VerifyError> {
    match r {
        Ok(c) => Ok(c@),
        Err(e) => Err(e),
    }
}

} // verus!
