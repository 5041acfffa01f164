//! A webhook URL kept in `secrecy`'s `SecretString`, which wipes it from memory when dropped.
use vstd::prelude::*;

verus! {

/// Holds the webhook URL (which embeds the webhook token) as a `secrecy::SecretString` in
/// a private field; [`secret_text`] names the text it holds, and only [`expose`] reads it.
#[verifier::external_body]
pub struct SecretUrl {
    inner: secrecy::SecretString,
}

/// The text held by a [`SecretUrl`].
pub uninterp spec fn secret_text(s: SecretUrl) -> Seq<char>;

/// `SecretString::from(String)`: stores the string as the secret.
#[verifier::external_body]
pub fn secret_from(url: String) -> (s: SecretUrl)
    ensures
        secret_text(s) == url@,
{
    SecretUrl { inner: secrecy::SecretString::from(url) }
}

/// `ExposeSecret::expose_secret`: borrows the stored secret text.
#[verifier::external_body]
pub fn expose(s: &SecretUrl) -> (text: &str)
    ensures
        text@ == secret_text(*s),
{
    secrecy::ExposeSecret::expose_secret(&s.inner)
}

impl Clone for SecretUrl {
    /// `SecretString::clone`: a new secret holding a copy of the same text.
    #[verifier::external_body]
    fn clone(&self) -> (c: Self)
        ensures
            secret_text(c) == secret_text(*self),
    {
        SecretUrl { inner: self.inner.clone() }
    }
}

} // verus!
