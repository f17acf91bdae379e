use base64::engine::general_purpose::STANDARD;
use base64::Engine;
use credvault::encryption::{
    classify_decoded, decrypt_decoded, decrypt_password, encrypt_password, encrypt_with_nonce,
    is_encrypted,
};
use credvault::error::CryptoError;
use credvault::key::KeyCell;
use ring::aead::{Aad, LessSafeKey, Nonce, UnboundKey, AES_256_GCM};

fn cell_with(key: Vec<u8>) -> KeyCell {
    let mut cell = KeyCell::new();
    assert_eq!(cell.set(key), Ok(()));
    cell
}

fn sample_key() -> Vec<u8> {
    (0u8..32).collect()
}

fn seal_with_ring(key: &[u8], nonce: [u8; 12], plaintext: &[u8]) -> String {
    let key = LessSafeKey::new(UnboundKey::new(&AES_256_GCM, key).unwrap());
    let mut in_out = plaintext.to_vec();
    key.seal_in_place_append_tag(Nonce::assume_unique_for_key(nonce), Aad::empty(), &mut in_out)
        .unwrap();
    let mut raw = nonce.to_vec();
    raw.extend_from_slice(&in_out);
    STANDARD.encode(raw)
}

#[test]
fn round_trip_recovers_the_password() {
    let cell = cell_with(sample_key());
    for password in ["a", "hunter2", "pässwörd ✓ 密码", "with spaces and \n newline", "plainPassword123"] {
        let envelope = encrypt_password(&cell, password).unwrap();
        assert_ne!(envelope, password);
        assert_eq!(decrypt_password(&cell, &envelope), Ok(password.to_string()));
    }
}

#[test]
fn round_trip_of_a_long_password() {
    let cell = cell_with(sample_key());
    let password = "x".repeat(10_000);
    let envelope = encrypt_password(&cell, &password).unwrap();
    assert_eq!(STANDARD.decode(&envelope).unwrap().len(), 10_000 + 28);
    assert_eq!(decrypt_password(&cell, &envelope), Ok(password));
}

#[test]
fn empty_input_decrypts_to_empty_without_a_key() {
    let empty_cell = KeyCell::new();
    assert_eq!(decrypt_password(&empty_cell, ""), Ok(String::new()));
    let cell = cell_with(sample_key());
    assert_eq!(decrypt_password(&cell, ""), Ok(String::new()));
}

#[test]
fn envelope_of_the_empty_password_is_one_byte_short() {
    let cell = cell_with(sample_key());
    let envelope = encrypt_password(&cell, "").unwrap();
    assert_eq!(envelope.len(), 40);
    assert_eq!(STANDARD.decode(&envelope).unwrap().len(), 28);
    assert!(!is_encrypted(&envelope));
    assert_eq!(decrypt_password(&cell, &envelope), Ok(envelope.clone()));
}

#[test]
fn envelope_has_nonce_ciphertext_and_tag() {
    let cell = cell_with(sample_key());
    let envelope = encrypt_password(&cell, "secret").unwrap();
    let raw = STANDARD.decode(&envelope).unwrap();
    assert_eq!(raw.len(), 12 + 6 + 16);
    assert_eq!(envelope.len(), 48);
}

#[test]
fn sealing_under_a_given_nonce_matches_the_published_vector() {
    let cell = cell_with(vec![0u8; 32]);
    let nonce = [0u8; 12];
    let text = "\0".repeat(16);
    assert_eq!(
        encrypt_with_nonce(&cell, &nonce, &text),
        Ok("AAAAAAAAAAAAAAAAzqdAPU1ga24HTsXTuvOdGNDRyKeZmWvwJluYtdSKuRk=".to_string())
    );
    assert_eq!(
        encrypt_with_nonce(&cell, &nonce, ""),
        Ok("AAAAAAAAAAAAAAAAUw+K+8dFNrmpY7TxxMtziw==".to_string())
    );
    assert_eq!(
        decrypt_password(&cell, "AAAAAAAAAAAAAAAAzqdAPU1ga24HTsXTuvOdGNDRyKeZmWvwJluYtdSKuRk="),
        Ok(text)
    );
}

#[test]
fn sealing_under_a_given_nonce_agrees_with_the_cipher() {
    let key = sample_key();
    let cell = cell_with(key.clone());
    let nonce = [9u8, 8, 7, 6, 5, 4, 3, 2, 1, 0, 11, 12];
    let expected = seal_with_ring(&key, nonce, "correct horse".as_bytes());
    assert_eq!(encrypt_with_nonce(&cell, &nonce, "correct horse"), Ok(expected.clone()));
    let raw = STANDARD.decode(&expected).unwrap();
    assert_eq!(&raw[..12], &nonce[..]);
    assert_ne!(&raw[12..25], "correct horse".as_bytes());
}

#[test]
fn same_password_twice_gives_different_envelopes() {
    let cell = cell_with(sample_key());
    let first = encrypt_password(&cell, "repeat").unwrap();
    let second = encrypt_password(&cell, "repeat").unwrap();
    assert_ne!(first, second);
}

#[test]
fn nonces_do_not_collide_over_a_thousand_encryptions() {
    let cell = cell_with(sample_key());
    let mut nonces: Vec<Vec<u8>> = Vec::new();
    for _ in 0..1000 {
        let envelope = encrypt_password(&cell, "repeat").unwrap();
        let raw = STANDARD.decode(&envelope).unwrap();
        nonces.push(raw[..12].to_vec());
    }
    nonces.sort();
    nonces.dedup();
    assert_eq!(nonces.len(), 1000);
}

#[test]
fn flipping_any_byte_is_detected() {
    let cell = cell_with(sample_key());
    let envelope = encrypt_password(&cell, "s3cret-password").unwrap();
    let raw = STANDARD.decode(&envelope).unwrap();
    for i in 0..raw.len() {
        let mut tampered = raw.clone();
        tampered[i] ^= 0x01;
        let text = STANDARD.encode(&tampered);
        assert!(is_encrypted(&text));
        assert_eq!(decrypt_password(&cell, &text), Err(CryptoError::DecryptionFailed));
    }
}

#[test]
fn wrong_key_fails_authentication() {
    let cell = cell_with(sample_key());
    let other = cell_with(vec![0x42u8; 32]);
    let envelope = encrypt_password(&cell, "s3cret-password").unwrap();
    assert_eq!(decrypt_password(&other, &envelope), Err(CryptoError::DecryptionFailed));
}

#[test]
fn long_random_base64_is_taken_for_an_envelope() {
    let cell = cell_with(sample_key());
    let text = "BwcHBwcHBwcHBwcHBwcHBwcHBwcHBwcHBwcHBwc=";
    assert!(is_encrypted(text));
    assert_eq!(decrypt_password(&cell, text), Err(CryptoError::DecryptionFailed));
}

#[test]
fn classifier_accepts_envelopes() {
    let cell = cell_with(sample_key());
    for password in ["a", "hunter2", "pässwörd ✓", "plainPassword123"] {
        let envelope = encrypt_password(&cell, password).unwrap();
        assert!(is_encrypted(&envelope));
    }
}

#[test]
fn classifier_rejects_legacy_values() {
    assert!(!is_encrypted(""));
    assert!(!is_encrypted("short"));
    assert!(!is_encrypted("not-base64!@#"));
    assert!(!is_encrypted("plainPassword123"));
}

#[test]
fn classifier_threshold_is_twenty_nine_bytes() {
    assert!(is_encrypted("BwcHBwcHBwcHBwcHBwcHBwcHBwcHBwcHBwcHBwc="));
    assert!(!is_encrypted("BwcHBwcHBwcHBwcHBwcHBwcHBwcHBwcHBwcHBw=="));
    assert!(!is_encrypted("BwcHBwcHBwcHBwcHBwcHBwcHBwcHBwcHBwcHBwc"));
}

#[test]
fn legacy_plaintext_is_returned_unchanged() {
    let cell = cell_with(sample_key());
    assert_eq!(decrypt_password(&cell, "plainPassword123"), Ok("plainPassword123".to_string()));
    assert_eq!(decrypt_password(&cell, "not-base64!@#"), Ok("not-base64!@#".to_string()));
    assert_eq!(decrypt_password(&cell, "short"), Ok("short".to_string()));
    let empty_cell = KeyCell::new();
    assert_eq!(
        decrypt_password(&empty_cell, "plainPassword123"),
        Ok("plainPassword123".to_string())
    );
}

#[test]
fn cipher_before_key_setup_is_not_initialized() {
    let cell = KeyCell::new();
    assert_eq!(encrypt_password(&cell, "secret"), Err(CryptoError::NotInitialized));
    assert_eq!(encrypt_with_nonce(&cell, &[0u8; 12], "secret"), Err(CryptoError::NotInitialized));
    let envelope = encrypt_password(&cell_with(sample_key()), "secret").unwrap();
    assert_eq!(decrypt_password(&cell, &envelope), Err(CryptoError::NotInitialized));
}

#[test]
fn nonce_of_wrong_length_is_an_encryption_failure() {
    let cell = cell_with(sample_key());
    assert_eq!(encrypt_with_nonce(&cell, &[0u8; 11], "secret"), Err(CryptoError::EncryptionFailed));
    assert_eq!(encrypt_with_nonce(&cell, &[0u8; 13], "secret"), Err(CryptoError::EncryptionFailed));
    assert_eq!(encrypt_with_nonce(&cell, &[], "secret"), Err(CryptoError::EncryptionFailed));
    assert_eq!(
        encrypt_with_nonce(&KeyCell::new(), &[0u8; 11], "secret"),
        Err(CryptoError::NotInitialized)
    );
}

#[test]
fn key_of_wrong_length_never_reaches_the_cipher() {
    let mut cell = KeyCell::new();
    assert_eq!(cell.set(vec![1u8; 16]), Err(CryptoError::KeyDecodeError));
    assert_eq!(encrypt_password(&cell, "secret"), Err(CryptoError::NotInitialized));
    let envelope = encrypt_password(&cell_with(sample_key()), "secret").unwrap();
    assert_eq!(decrypt_password(&cell, &envelope), Err(CryptoError::NotInitialized));
    assert_eq!(decrypt_password(&cell, "plainPassword123"), Ok("plainPassword123".to_string()));
}

#[test]
fn envelope_length_follows_the_password() {
    let cell = cell_with(sample_key());
    for (password, bytes) in [("", 0usize), ("a", 1), ("ab", 2), ("abc", 3), ("é", 2), ("密码", 6)] {
        let envelope = encrypt_password(&cell, password).unwrap();
        assert_eq!(envelope.len(), 4 * ((bytes + 30) / 3));
        assert_eq!(STANDARD.decode(&envelope).unwrap().len(), bytes + 28);
    }
}

#[test]
fn envelope_starts_with_the_nonce_it_was_made_with() {
    let cell = cell_with(sample_key());
    let nonce = [1u8, 2, 3, 4, 5, 6, 7, 8, 9, 10, 11, 12];
    let envelope = encrypt_with_nonce(&cell, &nonce, "secret").unwrap();
    assert_eq!(&STANDARD.decode(&envelope).unwrap()[..12], &nonce[..]);
    let other = encrypt_with_nonce(&cell, &[0u8; 12], "secret").unwrap();
    assert_ne!(envelope, other);
}

#[test]
fn decoded_bytes_are_classified_by_length() {
    assert!(!classify_decoded(true, &Some(vec![7u8; 29])));
    assert!(!classify_decoded(false, &None));
    assert!(!classify_decoded(false, &Some(Vec::new())));
    assert!(!classify_decoded(false, &Some(vec![7u8; 28])));
    assert!(classify_decoded(false, &Some(vec![7u8; 29])));
    assert!(classify_decoded(false, &Some(vec![7u8; 30])));
}

#[test]
fn decryption_goes_on_from_what_the_decoder_returned() {
    let key = sample_key();
    let cell = cell_with(key.clone());
    assert_eq!(decrypt_decoded(&cell, "legacy", &None), Ok("legacy".to_string()));
    assert_eq!(decrypt_decoded(&cell, "legacy", &Some(vec![7u8; 28])), Ok("legacy".to_string()));
    assert_eq!(decrypt_decoded(&cell, "", &Some(vec![7u8; 29])), Ok(String::new()));
    assert_eq!(
        decrypt_decoded(&cell, "x", &Some(vec![7u8; 29])),
        Err(CryptoError::DecryptionFailed)
    );
    assert_eq!(
        decrypt_decoded(&KeyCell::new(), "x", &Some(vec![7u8; 29])),
        Err(CryptoError::NotInitialized)
    );
    let envelope = seal_with_ring(&key, [5u8; 12], "hunter2".as_bytes());
    let raw = STANDARD.decode(&envelope).unwrap();
    assert_eq!(decrypt_decoded(&cell, &envelope, &Some(raw)), Ok("hunter2".to_string()));
}

#[test]
fn recovered_bytes_that_are_not_text_are_an_encoding_error() {
    let key = sample_key();
    let cell = cell_with(key.clone());
    let envelope = seal_with_ring(&key, [3u8; 12], &[0xff, 0xfe, 0xfd]);
    assert!(is_encrypted(&envelope));
    assert_eq!(decrypt_password(&cell, &envelope), Err(CryptoError::EncodingError));
}
