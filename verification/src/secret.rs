//! Secrets in memory: values that are wiped when they are dropped.

use vstd::prelude::*;

verus! {

/// Bytes kept in a `secrecy::Secret`, which wipes them when it is dropped.
#[verifier::external_body]
pub struct SecretBytes {
    inner: secrecy::Secret<Vec<u8>>,
}

/// A text kept in a `secrecy::Secret`, which wipes it when it is dropped.
#[verifier::external_body]
pub struct SecretText {
    inner: secrecy::Secret<String>,
}

/// The bytes that a secret holds.
pub uninterp spec fn secret_bytes(secret: SecretBytes) -> Seq<u8>;

/// The text that a secret holds.
pub uninterp spec fn secret_text(secret: SecretText) -> Seq<char>;

/// Calls `secrecy::Secret::new` on bytes: the secret that holds them.
#[verifier::external_body]
fn secret_of_bytes(bytes: Vec<u8>) -> (secret: SecretBytes)
    ensures
        secret_bytes(secret) == bytes@,
{
    SecretBytes { inner: secrecy::Secret::new(bytes) }
}

/// Calls `secrecy::ExposeSecret::expose_secret` on a secret of bytes: the
/// bytes that it holds.
#[verifier::external_body]
fn exposed_bytes(secret: &SecretBytes) -> (bytes: &Vec<u8>)
    ensures
        bytes@ == secret_bytes(*secret),
{
    secrecy::ExposeSecret::expose_secret(&secret.inner)
}

/// Calls `secrecy::Secret::new` on a text: the secret that holds it.
#[verifier::external_body]
fn secret_of_text(text: String) -> (secret: SecretText)
    ensures
        secret_text(secret) == text@,
{
    SecretText { inner: secrecy::Secret::new(text) }
}

/// Calls `secrecy::ExposeSecret::expose_secret` on a secret text: the text
/// that it holds.
#[verifier::external_body]
fn exposed_text(secret: &SecretText) -> (text: &String)
    ensures
        text@ == secret_text(*secret),
{
    secrecy::ExposeSecret::expose_secret(&secret.inner)
}

impl View for SecretBytes {
    type V = Seq<u8>;

    closed spec fn view(&self) -> Seq<u8> {
        secret_bytes(*self)
    }
}

impl View for SecretText {
    type V = Seq<char>;

    closed spec fn view(&self) -> Seq<char> {
        secret_text(*self)
    }
}

impl SecretBytes {
    /// The secret that holds `bytes`.
    pub fn new(bytes: Vec<u8>) -> (secret: SecretBytes)
        ensures
            secret@ == bytes@,
    {
        secret_of_bytes(bytes)
    }

    /// The bytes of the secret, for as long as they are needed.
    pub fn expose_secret(&self) -> (bytes: &Vec<u8>)
        ensures
            bytes@ == self@,
    {
        exposed_bytes(self)
    }
}

impl SecretText {
    /// The secret that holds `text`.
    pub fn new(text: String) -> (secret: SecretText)
        ensures
            secret@ == text@,
    {
        secret_of_text(text)
    }

    /// The text of the secret, for as long as it is needed.
    pub fn expose_secret(&self) -> (text: &str)
        ensures
            text@ == self@,
    {
        exposed_text(self).as_str()
    }
}

} // verus!
