//! The secret shared by issuing and verifying: read once from configuration
//! at startup and handed by reference to both.

use vstd::prelude::*;
use vstd::slice::slice_to_vec;
use vstd::utf8::encode_utf8;

verus! {

/// The secret used when configuration supplies none. It is guessable: a
/// deployment must configure its own.
pub const FALLBACK_SECRET: &'static str = "secret_key";

/// The bytes of the secret that configuration `value` selects.
pub open spec fn configured_secret(value: Option<Seq<char>>) -> Seq<u8> {
    match value {
        Some(v) => encode_utf8(v),
        None => encode_utf8(FALLBACK_SECRET@),
    }
}

/// The view of an optional configuration string.
pub open spec fn option_view(value: Option<String>) -> Option<Seq<char>> {
    match value {
        Some(v) => Some(v@),
        None => None,
    }
}

/// The HMAC secret that tokens are signed and checked with.
#[derive(Clone, Debug)]
pub struct SigningKey {
    secret: Vec<u8>,
}

impl View for SigningKey {
    type V = Seq<u8>;

    closed spec fn view(&self) -> Seq<u8> {
        self.secret@
    }
}

impl SigningKey {
    /// A key with the given secret bytes.
    pub fn new(secret: &[u8]) -> (k: SigningKey)
        ensures
            k@ == secret@,
    {
        SigningKey { secret: slice_to_vec(secret) }
    }

    /// The key that configuration selects: the UTF-8 bytes of `value`, or of
    /// [`FALLBACK_SECRET`] when no value is configured.
    pub fn from_config(value: Option<String>) -> (k: SigningKey)
        ensures
            k@ == configured_secret(option_view(value)),
    {
        match value {
            Some(v) => SigningKey { secret: slice_to_vec(v.as_str().as_bytes()) },
            None => SigningKey { secret: slice_to_vec(FALLBACK_SECRET.as_bytes()) },
        }
    }

    /// The secret bytes.
    pub fn secret(&self) -> (r: &[u8])
        ensures
            r@ == self@,
    {
        self.secret.as_slice()
    }
}

} // verus!
