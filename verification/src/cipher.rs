//! Authenticated encryption of a short string under a session key.
//!
//! The cipher is AES-256-GCM with a 96-bit nonce and a 128-bit tag. The key of
//! a session and the nonce of each encryption come from the operating system's
//! random source.

use crate::error::GitHubError;
use crate::secret::{SecretBytes, SecretText};
use aes_gcm::aead::rand_core::RngCore;
use aes_gcm::aead::{Aead, KeyInit};
use vstd::prelude::*;
use vstd::utf8::{decode_utf8, encode_utf8, valid_utf8};

verus! {

/// Bytes in a session key.
pub const KEY_LENGTH: usize = 32;

/// Bytes in a nonce.
pub const NONCE_LENGTH: usize = 12;

/// Bytes in the authentication tag that ends every ciphertext.
pub const TAG_LENGTH: usize = 16;

/// The most bytes that one encryption takes.
pub const MAX_PLAINTEXT_LENGTH: u64 = 0x10_0000_0000;

/// What AES-256-GCM makes of a plaintext under a key and a nonce, with no
/// associated data: the encrypted bytes followed by the tag.
pub uninterp spec fn aes256_gcm_sealed(key: Seq<u8>, nonce: Seq<u8>, plaintext: Seq<u8>) -> Seq<u8>;

/// What AES-256-GCM recovers from a ciphertext under a key and a nonce, with no
/// associated data: the plaintext, or nothing where the tag does not verify.
pub uninterp spec fn aes256_gcm_opened(key: Seq<u8>, nonce: Seq<u8>, sealed: Seq<u8>) -> Option<
    Seq<u8>,
>;

/// Asks `OsRng::try_fill_bytes` of `rand_core` for `count` random bytes. All
/// that is claimed is the length of what comes back; nothing comes back where
/// the operating system's source fails.
#[verifier::external_body]
pub(crate) fn os_random_bytes(count: usize) -> (bytes: Option<Vec<u8>>)
    ensures
        bytes is Some ==> bytes->0@.len() == count,
{
    let mut bytes = vec![0u8; count];
    match aes_gcm::aead::OsRng.try_fill_bytes(&mut bytes) {
        Ok(()) => Some(bytes),
        Err(_) => None,
    }
}

/// Calls `Aead::encrypt` of `aes_gcm::Aes256Gcm`. It fails on a plaintext of
/// more than `MAX_PLAINTEXT_LENGTH` bytes and on no other; what it returns is
/// `aes256_gcm_sealed` of its arguments, `TAG_LENGTH` bytes longer than the
/// plaintext.
#[verifier::external_body]
fn aes_gcm_seal(key: &[u8], nonce: &[u8], plaintext: &[u8]) -> (sealed: Option<Vec<u8>>)
    requires
        key@.len() == KEY_LENGTH,
        nonce@.len() == NONCE_LENGTH,
    ensures
        sealed is Some <==> plaintext@.len() <= MAX_PLAINTEXT_LENGTH,
        sealed is Some ==> sealed->0@ == aes256_gcm_sealed(key@, nonce@, plaintext@),
        sealed is Some ==> sealed->0@.len() == plaintext@.len() + TAG_LENGTH,
{
    let cipher = aes_gcm::Aes256Gcm::new(aes_gcm::Key::<aes_gcm::Aes256Gcm>::from_slice(key));
    cipher.encrypt(aes_gcm::Nonce::from_slice(nonce), plaintext).ok()
}

/// Calls `Aead::decrypt` of `aes_gcm::Aes256Gcm`. What it returns is
/// `aes256_gcm_opened` of its arguments. Anything shorter than a tag is
/// refused, and what `Aead::encrypt` made under the same key and nonce is
/// opened to the plaintext it was made from.
#[verifier::external_body]
fn aes_gcm_open(key: &[u8], nonce: &[u8], sealed: &[u8]) -> (opened: Option<Vec<u8>>)
    requires
        key@.len() == KEY_LENGTH,
        nonce@.len() == NONCE_LENGTH,
    ensures
        opened is Some <==> aes256_gcm_opened(key@, nonce@, sealed@) is Some,
        opened is Some ==> opened->0@ == aes256_gcm_opened(key@, nonce@, sealed@)->0,
        sealed@.len() < TAG_LENGTH ==> opened is None,
        forall|plaintext: Seq<u8>|
            plaintext.len() <= MAX_PLAINTEXT_LENGTH && sealed@ == #[trigger] aes256_gcm_sealed(
                key@,
                nonce@,
                plaintext,
            ) ==> opened is Some && opened->0@ == plaintext,
{
    let cipher = aes_gcm::Aes256Gcm::new(aes_gcm::Key::<aes_gcm::Aes256Gcm>::from_slice(key));
    cipher.decrypt(aes_gcm::Nonce::from_slice(nonce), sealed).ok()
}

/// Calls `String::from_utf8`, which accepts exactly the byte strings that are
/// valid UTF-8 and returns the text they encode.
#[verifier::external_body]
fn string_from_utf8(bytes: Vec<u8>) -> (text: Option<String>)
    ensures
        text is Some <==> valid_utf8(bytes@),
        text is Some ==> text->0@ == decode_utf8(bytes@),
{
    String::from_utf8(bytes).ok()
}

/// The key of one session: `KEY_LENGTH` bytes that never leave this module
/// and are wiped when the key is dropped.
pub struct SessionKey {
    bytes: SecretBytes,
}

impl SessionKey {
    /// The bytes of the key.
    pub closed spec fn view(&self) -> Seq<u8> {
        self.bytes@
    }

    /// What holds of every key: it has `KEY_LENGTH` bytes.
    #[verifier::type_invariant]
    pub closed spec fn well_formed(&self) -> bool {
        self.bytes@.len() == KEY_LENGTH
    }

    /// The key made of `bytes`, where there are `KEY_LENGTH` of them.
    pub fn from_bytes(bytes: Vec<u8>) -> (key: Option<SessionKey>)
        ensures
            key is Some <==> bytes@.len() == KEY_LENGTH,
            key is Some ==> key->0@ == bytes@ && key->0.well_formed(),
    {
        if bytes.len() == KEY_LENGTH {
            Some(SessionKey { bytes: SecretBytes::new(bytes) })
        } else {
            None
        }
    }

    /// The key made of what the random source gave, if it gave anything.
    pub fn from_entropy(entropy: Option<Vec<u8>>) -> (key: Result<SessionKey, GitHubError>)
        ensures
            key is Ok <==> entropy is Some && entropy->0@.len() == KEY_LENGTH,
            key is Ok ==> key->Ok_0@ == entropy->0@ && key->Ok_0.well_formed(),
            key is Err ==> key->Err_0 == GitHubError::EntropySourceUnavailable,
    {
        match entropy {
            Some(bytes) => match SessionKey::from_bytes(bytes) {
                Some(key) => Ok(key),
                None => Err(GitHubError::EntropySourceUnavailable),
            },
            None => Err(GitHubError::EntropySourceUnavailable),
        }
    }

    /// A fresh key from the operating system's random source. It fails only
    /// where that source does.
    pub fn generate() -> (key: Result<SessionKey, GitHubError>)
        ensures
            key is Ok ==> key->Ok_0.well_formed() && key->Ok_0@.len() == KEY_LENGTH,
            key is Err ==> key->Err_0 == GitHubError::EntropySourceUnavailable,
    {
        SessionKey::from_entropy(os_random_bytes(KEY_LENGTH))
    }
}

/// A token encrypted under a session key: the nonce of the encryption and the
/// ciphertext with its tag.
pub struct EncryptedCredential {
    nonce: Vec<u8>,
    sealed: Vec<u8>,
}

/// The bytes of an encrypted credential.
pub struct CredentialBytes {
    pub nonce: Seq<u8>,
    pub sealed: Seq<u8>,
}

impl View for EncryptedCredential {
    type V = CredentialBytes;

    closed spec fn view(&self) -> CredentialBytes {
        CredentialBytes { nonce: self.nonce@, sealed: self.sealed@ }
    }
}

impl EncryptedCredential {
    /// The credential made of a nonce and a ciphertext, whatever they hold.
    pub fn from_parts(nonce: Vec<u8>, sealed: Vec<u8>) -> (credential: EncryptedCredential)
        ensures
            credential@.nonce == nonce@,
            credential@.sealed == sealed@,
    {
        EncryptedCredential { nonce, sealed }
    }

    /// The nonce that the credential was encrypted with.
    pub fn nonce(&self) -> (nonce: &Vec<u8>)
        ensures
            nonce@ == self@.nonce,
    {
        &self.nonce
    }

    /// The ciphertext, tag included.
    pub fn sealed(&self) -> (sealed: &Vec<u8>)
        ensures
            sealed@ == self@.sealed,
    {
        &self.sealed
    }
}

/// Whether a token can be encrypted: its UTF-8 form is no longer than the
/// cipher takes.
pub open spec fn encryptable(token: Seq<char>) -> bool {
    encode_utf8(token).len() <= MAX_PLAINTEXT_LENGTH
}

/// The credential that encrypting `token` under `key` with `nonce` gives.
pub open spec fn sealed_credential(token: Seq<char>, key: Seq<u8>, nonce: Seq<u8>) -> CredentialBytes {
    CredentialBytes { nonce, sealed: aes256_gcm_sealed(key, nonce, encode_utf8(token)) }
}

/// Two encryptions of one token under one key differ as soon as their nonces
/// differ.
pub proof fn lemma_fresh_nonce_fresh_credential(
    token: Seq<char>,
    key: Seq<u8>,
    first_nonce: Seq<u8>,
    second_nonce: Seq<u8>,
)
    requires
        first_nonce != second_nonce,
    ensures
        sealed_credential(token, key, first_nonce) != sealed_credential(token, key, second_nonce),
{
    assert(sealed_credential(token, key, first_nonce).nonce == first_nonce);
    assert(sealed_credential(token, key, second_nonce).nonce == second_nonce);
}

/// What decrypting `credential` under `key` gives: the text, or the reason
/// why there is none.
pub open spec fn decrypted(credential: CredentialBytes, key: Seq<u8>) -> Result<
    Seq<char>,
    GitHubError,
> {
    if credential.nonce.len() != NONCE_LENGTH {
        Err(GitHubError::MalformedInput)
    } else {
        match aes256_gcm_opened(key, credential.nonce, credential.sealed) {
            Some(bytes) => if valid_utf8(bytes) {
                Ok(decode_utf8(bytes))
            } else {
                Err(GitHubError::MalformedInput)
            },
            None => if credential.sealed.len() < TAG_LENGTH {
                Err(GitHubError::MalformedInput)
            } else {
                Err(GitHubError::AuthenticationFailure)
            },
        }
    }
}

/// Whether an executable result is the one that `expected` describes.
pub open spec fn text_result_is(
    result: Result<SecretText, GitHubError>,
    expected: Result<Seq<char>, GitHubError>,
) -> bool {
    match expected {
        Ok(text) => result is Ok && result->Ok_0@ == text,
        Err(error) => result is Err && result->Err_0 == error,
    }
}

/// Encrypts `plaintext` under `key` with the given nonce, which must not have
/// been used with this key before. It fails with `MalformedInput` where the
/// nonce has not `NONCE_LENGTH` bytes or the text is longer than the cipher
/// takes.
pub fn encrypt_with_nonce(plaintext: &str, key: &SessionKey, nonce: Vec<u8>) -> (credential: Result<
    EncryptedCredential,
    GitHubError,
>)
    ensures
        credential is Ok <==> nonce@.len() == NONCE_LENGTH && encryptable(plaintext@),
        credential is Ok ==> credential->Ok_0@ == sealed_credential(plaintext@, key@, nonce@),
        credential is Ok ==> credential->Ok_0@.sealed.len() == encode_utf8(plaintext@).len()
            + TAG_LENGTH,
        credential is Err ==> credential->Err_0 == GitHubError::MalformedInput,
{
    proof {
        use_type_invariant(key);
    }
    if nonce.len() != NONCE_LENGTH {
        return Err(GitHubError::MalformedInput);
    }
    match aes_gcm_seal(
        key.bytes.expose_secret().as_slice(),
        nonce.as_slice(),
        plaintext.as_bytes(),
    ) {
        Some(sealed) => Ok(EncryptedCredential { nonce, sealed }),
        None => Err(GitHubError::MalformedInput),
    }
}

/// Encrypts with the nonce that the random source gave, if it gave one.
pub fn encrypt_with_entropy(plaintext: &str, key: &SessionKey, entropy: Option<Vec<u8>>) -> (credential:
    Result<EncryptedCredential, GitHubError>)
    ensures
        credential is Ok <==> entropy is Some && entropy->0@.len() == NONCE_LENGTH && encryptable(
            plaintext@,
        ),
        credential is Ok ==> credential->Ok_0@ == sealed_credential(plaintext@, key@, entropy->0@),
        credential is Err ==> credential->Err_0 == (if entropy is None {
            GitHubError::EntropySourceUnavailable
        } else {
            GitHubError::MalformedInput
        }),
{
    match entropy {
        Some(nonce) => encrypt_with_nonce(plaintext, key, nonce),
        None => Err(GitHubError::EntropySourceUnavailable),
    }
}

/// Encrypts `plaintext` under `key` with a fresh random nonce. It fails with
/// `EntropySourceUnavailable` where the random source does, and with
/// `MalformedInput` where the text is longer than the cipher takes.
pub fn encrypt(plaintext: &str, key: &SessionKey) -> (credential: Result<
    EncryptedCredential,
    GitHubError,
>)
    ensures
        credential is Ok ==> encryptable(plaintext@) && credential->Ok_0@ == sealed_credential(
            plaintext@,
            key@,
            credential->Ok_0@.nonce,
        ) && credential->Ok_0@.nonce.len() == NONCE_LENGTH,
        credential is Err ==> credential->Err_0 == GitHubError::EntropySourceUnavailable || (
        credential->Err_0 == GitHubError::MalformedInput && !encryptable(plaintext@)),
{
    encrypt_with_entropy(plaintext, key, os_random_bytes(NONCE_LENGTH))
}

/// Decrypts `credential` under `key`. It fails with `MalformedInput` where the
/// credential has not the form of one or does not hold text, and with
/// `AuthenticationFailure` where its tag does not verify under this key. What
/// was encrypted under this key comes back as it went in, as a secret that is
/// wiped when it is dropped.
pub fn decrypt(credential: &EncryptedCredential, key: &SessionKey) -> (plaintext: Result<
    SecretText,
    GitHubError,
>)
    ensures
        text_result_is(plaintext, decrypted(credential@, key@)),
        forall|token: Seq<char>, nonce: Seq<u8>|
            nonce.len() == NONCE_LENGTH && encryptable(token) && credential@
                == #[trigger] sealed_credential(token, key@, nonce) ==> plaintext is Ok
                && plaintext->Ok_0@ == token,
{
    proof {
        use_type_invariant(key);
    }
    if credential.nonce.len() != NONCE_LENGTH {
        return Err(GitHubError::MalformedInput);
    }
    let opened = aes_gcm_open(
        key.bytes.expose_secret().as_slice(),
        credential.nonce.as_slice(),
        credential.sealed.as_slice(),
    );
    proof {
        assert forall|token: Seq<char>, nonce: Seq<u8>|
            nonce.len() == NONCE_LENGTH && encryptable(token) && credential@
                == #[trigger] sealed_credential(token, key@, nonce) implies opened is Some
            && opened->0@ == encode_utf8(token) by {
            assert(credential@.sealed == aes256_gcm_sealed(key@, credential@.nonce, encode_utf8(token)));
        }
    }
    match opened {
        Some(bytes) => {
            proof {
                assert forall|token: Seq<char>| bytes@ == encode_utf8(token) implies valid_utf8(
                    bytes@,
                ) && decode_utf8(bytes@) == token by {
                    vstd::utf8::encode_utf8_valid_utf8(token);
                    vstd::utf8::encode_utf8_decode_utf8(token);
                }
            }
            match string_from_utf8(bytes) {
                Some(text) => Ok(SecretText::new(text)),
                None => Err(GitHubError::MalformedInput),
            }
        },
        None => {
            if credential.sealed.len() < TAG_LENGTH {
                Err(GitHubError::MalformedInput)
            } else {
                Err(GitHubError::AuthenticationFailure)
            }
        },
    }
}

} // verus!
