use cargo_auto_github_lib::cipher::{
    decrypt, encrypt, encrypt_with_entropy, encrypt_with_nonce, EncryptedCredential, SessionKey,
};
use cargo_auto_github_lib::error::GitHubError;
use cargo_auto_github_lib::secret::SecretText;

fn opened(result: Result<SecretText, GitHubError>) -> Result<String, GitHubError> {
    result.map(|text| text.expose_secret().to_string())
}

fn key_of(byte: u8) -> SessionKey {
    SessionKey::from_bytes(vec![byte; 32]).unwrap()
}

#[test]
fn round_trip_returns_the_token() {
    let key = SessionKey::generate().unwrap();
    let credential = encrypt("tkn_abc123", &key).unwrap();
    assert_eq!(opened(decrypt(&credential, &key)), Ok("tkn_abc123".to_string()));
}

#[test]
fn round_trip_of_empty_and_non_ascii_text() {
    let key = key_of(7);
    for text in ["", "ž", "token with spaces ✓"] {
        let credential = encrypt(text, &key).unwrap();
        assert_eq!(opened(decrypt(&credential, &key)), Ok(text.to_string()));
    }
}

#[test]
fn another_key_fails_authentication() {
    let credential = encrypt("tkn_abc123", &key_of(1)).unwrap();
    assert_eq!(opened(decrypt(&credential, &key_of(2))), Err(GitHubError::AuthenticationFailure));
}

#[test]
fn two_encryptions_differ() {
    let key = key_of(3);
    let first = encrypt("tkn_abc123", &key).unwrap();
    let second = encrypt("tkn_abc123", &key).unwrap();
    assert_ne!(first.nonce(), second.nonce());
    assert_ne!(first.sealed(), second.sealed());
}

#[test]
fn ciphertext_is_not_the_plaintext() {
    let credential = encrypt_with_nonce("tkn_abc123", &key_of(4), vec![9; 12]).unwrap();
    assert_eq!(credential.nonce(), &vec![9u8; 12]);
    assert_eq!(credential.sealed().len(), "tkn_abc123".len() + 16);
    assert_ne!(&credential.sealed()[..10], "tkn_abc123".as_bytes());
}

#[test]
fn known_answer_for_empty_plaintext() {
    // AES-256-GCM with an all-zero key and nonce and no data: the tag alone.
    let credential = encrypt_with_nonce("", &key_of(0), vec![0; 12]).unwrap();
    let expected: Vec<u8> = vec![
        0x53, 0x0f, 0x8a, 0xfb, 0xc7, 0x45, 0x36, 0xb9, 0xa9, 0x63, 0xb4, 0xf1, 0xc4, 0xcb, 0x73,
        0x8b,
    ];
    assert_eq!(credential.sealed(), &expected);
}

#[test]
fn same_nonce_gives_the_same_credential() {
    let key = key_of(5);
    let first = encrypt_with_nonce("abc", &key, vec![1; 12]).unwrap();
    let second = encrypt_with_nonce("abc", &key, vec![1; 12]).unwrap();
    assert_eq!(first.sealed(), second.sealed());
    let third = encrypt_with_nonce("abc", &key, vec![2; 12]).unwrap();
    assert_ne!(first.sealed(), third.sealed());
}

#[test]
fn nonce_of_wrong_length_is_malformed() {
    let key = key_of(5);
    assert!(matches!(encrypt_with_nonce("abc", &key, vec![1; 11]), Err(GitHubError::MalformedInput)));
    assert!(matches!(
        encrypt_with_entropy("abc", &key, Some(vec![1; 13])),
        Err(GitHubError::MalformedInput)
    ));
}

#[test]
fn missing_entropy_is_reported() {
    let key = key_of(5);
    assert!(matches!(
        encrypt_with_entropy("abc", &key, None),
        Err(GitHubError::EntropySourceUnavailable)
    ));
    assert!(matches!(SessionKey::from_entropy(None), Err(GitHubError::EntropySourceUnavailable)));
    assert!(matches!(
        SessionKey::from_entropy(Some(vec![0; 31])),
        Err(GitHubError::EntropySourceUnavailable)
    ));
    assert!(SessionKey::from_entropy(Some(vec![0; 32])).is_ok());
}

#[test]
fn key_needs_thirty_two_bytes() {
    assert!(SessionKey::from_bytes(vec![0; 31]).is_none());
    assert!(SessionKey::from_bytes(vec![0; 33]).is_none());
    assert!(SessionKey::from_bytes(vec![0; 32]).is_some());
}

#[test]
fn tampered_ciphertext_fails_authentication() {
    let key = key_of(6);
    let credential = encrypt("tkn_abc123", &key).unwrap();
    let mut sealed = credential.sealed().clone();
    sealed[0] ^= 1;
    let tampered = EncryptedCredential::from_parts(credential.nonce().clone(), sealed);
    assert_eq!(opened(decrypt(&tampered, &key)), Err(GitHubError::AuthenticationFailure));
}

#[test]
fn tampered_nonce_fails_authentication() {
    let key = key_of(6);
    let credential = encrypt("tkn_abc123", &key).unwrap();
    let mut nonce = credential.nonce().clone();
    nonce[11] ^= 0x80;
    let tampered = EncryptedCredential::from_parts(nonce, credential.sealed().clone());
    assert_eq!(opened(decrypt(&tampered, &key)), Err(GitHubError::AuthenticationFailure));
}

#[test]
fn credential_of_wrong_form_is_malformed() {
    let key = key_of(6);
    let short_nonce = EncryptedCredential::from_parts(vec![0; 8], vec![0; 32]);
    assert_eq!(opened(decrypt(&short_nonce, &key)), Err(GitHubError::MalformedInput));
    let short_text = EncryptedCredential::from_parts(vec![0; 12], vec![0; 15]);
    assert_eq!(opened(decrypt(&short_text, &key)), Err(GitHubError::MalformedInput));
    let tag_sized = EncryptedCredential::from_parts(vec![0; 12], vec![0; 16]);
    assert_eq!(opened(decrypt(&tag_sized, &key)), Err(GitHubError::AuthenticationFailure));
}
