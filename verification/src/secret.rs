//! API keys held as `secrecy` secrets.

use secrecy::{ExposeSecret, SecretString};
use vstd::prelude::*;

verus! {

/// An API key. The text lives in a `secrecy::SecretString`, which zeroizes it
/// on drop and redacts it from `Debug` output.
#[verifier::external_body]
#[derive(Debug)]
pub struct ApiKey {
    secret: SecretString,
}

/// The text of the secret held in an `ApiKey`.
pub uninterp spec fn api_key_text(key: ApiKey) -> Seq<char>;

impl ApiKey {
    /// Calls `SecretString::from(String)` on the given text.
    /// Claims the key holds exactly that text.
    #[verifier::external_body]
    pub fn new(text: String) -> (r: ApiKey)
        ensures
            api_key_text(r) == text@,
    {
        ApiKey { secret: SecretString::from(text) }
    }

    /// Calls `ExposeSecret::expose_secret`; claims it gives back the text the
    /// key holds.
    #[verifier::external_body]
    pub fn expose(&self) -> (r: &str)
        ensures
            r@ == api_key_text(*self),
    {
        self.secret.expose_secret()
    }
}

impl Clone for ApiKey {
    /// Calls `<SecretString as Clone>::clone`, which boxes a copy of the same
    /// text; claims the copy holds the same text.
    #[verifier::external_body]
    fn clone(&self) -> (r: ApiKey)
        ensures
            api_key_text(r) == api_key_text(*self),
    {
        ApiKey { secret: self.secret.clone() }
    }
}

} // verus!
