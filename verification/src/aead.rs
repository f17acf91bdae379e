use ring::aead::{Aad, LessSafeKey, Nonce, UnboundKey, AES_256_GCM};
use vstd::prelude::*;

verus! {

/// Length of the symmetric key, in bytes.
pub const KEY_LEN: usize = 32;

/// Length of the per-message nonce, in bytes.
pub const NONCE_LEN: usize = 12;

/// Length of the authentication tag, in bytes.
pub const TAG_LEN: usize = 16;

/// AES-256-GCM ciphertext followed by its tag, for `plaintext` sealed under
/// `key` and `nonce` with no associated data, or `None` where the cipher
/// refuses the input.
pub uninterp spec fn aes_gcm_sealed(key: Seq<u8>, nonce: Seq<u8>, plaintext: Seq<u8>) -> Option<Seq<u8>>;

/// The plaintext that AES-256-GCM recovers from `sealed` (ciphertext
/// followed by tag) under `key` and `nonce` with no associated data, or
/// `None` where authentication fails.
pub uninterp spec fn aes_gcm_opened(key: Seq<u8>, nonce: Seq<u8>, sealed: Seq<u8>) -> Option<Seq<u8>>;

/// Calls `ring::aead::LessSafeKey::seal_in_place_append_tag` with a key and
/// a nonce built from the given bytes and with empty associated data.
///
/// Trusted: the result is the sealing of `plaintext`; a sealed message is
/// the plaintext's length plus one tag long, and opening it under the same
/// key and nonce recovers the plaintext.
#[verifier::external_body]
pub(crate) fn seal_message(key: &[u8], nonce: &[u8], plaintext: &[u8]) -> (sealed: Option<Vec<u8>>)
    requires
        key@.len() == KEY_LEN,
        nonce@.len() == NONCE_LEN,
    ensures
        sealed matches Some(s) ==> aes_gcm_sealed(key@, nonce@, plaintext@) == Some(s@),
        sealed matches Some(s) ==> s@.len() == plaintext@.len() + TAG_LEN,
        sealed matches Some(s) ==> aes_gcm_opened(key@, nonce@, s@) == Some(plaintext@),
        sealed is None ==> aes_gcm_sealed(key@, nonce@, plaintext@) is None,
{
    let key = LessSafeKey::new(UnboundKey::new(&AES_256_GCM, key).ok()?);
    let nonce = Nonce::try_assume_unique_for_key(nonce).ok()?;
    let mut in_out = plaintext.to_vec();
    key.seal_in_place_append_tag(nonce, Aad::empty(), &mut in_out).ok()?;
    Some(in_out)
}

/// Calls `ring::aead::LessSafeKey::open_in_place` with a key and a nonce
/// built from the given bytes and with empty associated data.
///
/// Trusted: the result is the opening of `sealed`, `None` where the cipher
/// reports a failure.
#[verifier::external_body]
pub(crate) fn open_message(key: &[u8], nonce: &[u8], sealed: &[u8]) -> (plaintext: Option<Vec<u8>>)
    requires
        key@.len() == KEY_LEN,
        nonce@.len() == NONCE_LEN,
    ensures
        plaintext matches Some(p) ==> aes_gcm_opened(key@, nonce@, sealed@) == Some(p@),
        plaintext is None ==> aes_gcm_opened(key@, nonce@, sealed@) is None,
{
    let key = LessSafeKey::new(UnboundKey::new(&AES_256_GCM, key).ok()?);
    let nonce = Nonce::try_assume_unique_for_key(nonce).ok()?;
    let mut in_out = sealed.to_vec();
    let plaintext = key.open_in_place(nonce, Aad::empty(), &mut in_out).ok()?;
    Some(plaintext.to_vec())
}

} // verus!
