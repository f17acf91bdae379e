use crate::aead::{
    aes_gcm_opened, aes_gcm_sealed, open_message, seal_message, NONCE_LEN, TAG_LEN,
};
use crate::codec::{
    base64_decoded, base64_encoded, decode_base64, encode_base64, encoded_len, text_from_utf8,
};
use crate::error::CryptoError;
use crate::key::KeyCell;
use crate::random::fresh_bytes;
use vstd::prelude::*;
use vstd::slice::slice_subrange;
use vstd::utf8::*;

verus! {

/// Fewest bytes that a value must decode to in order to count as an
/// envelope: a nonce, one byte of ciphertext and a tag.
pub const MIN_ENVELOPE_LEN: usize = 29;

/// Whether `n` raw bytes have a base64 text that a `String` can hold.
pub open spec fn encodable(n: nat) -> bool {
    encoded_len(n) <= isize::MAX
}

/// The shape test on a value and what the decoder made of it: the value
/// is non-empty, it decoded, and to at least `MIN_ENVELOPE_LEN` bytes.
pub open spec fn shaped(value_is_empty: bool, decoded: Option<Seq<u8>>) -> bool {
    !value_is_empty && (decoded matches Some(raw) && raw.len() >= MIN_ENVELOPE_LEN)
}

/// What the shape test decides of a value: non-empty, valid base64, and at
/// least `MIN_ENVELOPE_LEN` bytes once decoded.
pub open spec fn looks_encrypted(value: Seq<char>) -> bool {
    shaped(value.len() == 0, base64_decoded(value))
}

/// Number of raw bytes in the envelope of `text`: the nonce, one byte of
/// ciphertext for each byte of the text's UTF-8 encoding, and the tag.
pub open spec fn raw_len(text: Seq<char>) -> nat {
    NONCE_LEN as nat + encode_utf8(text).len() + TAG_LEN as nat
}

/// The wire shape of an envelope of `text` made with `nonce`: padded base64
/// of `raw_len(text)` bytes, of which the first `NONCE_LEN` are the nonce.
pub open spec fn well_shaped(envelope: Seq<char>, nonce: Seq<u8>, text: Seq<char>) -> bool {
    &&& envelope.len() == encoded_len(raw_len(text))
    &&& base64_decoded(envelope) matches Some(raw) && raw.len() == raw_len(text) && raw.subrange(
        0,
        NONCE_LEN as int,
    ) == nonce
}

/// The envelope that sealing `text` under `key` and `nonce` gives:
/// base64 of the nonce followed by ciphertext and tag. A nonce that is not
/// `NONCE_LEN` bytes long, a plaintext that the cipher refuses and an
/// envelope too long to encode are encryption failures.
pub open spec fn envelope_of(
    key: Option<Seq<u8>>,
    nonce: Seq<u8>,
    text: Seq<char>,
) -> Result<Seq<char>, CryptoError> {
    match key {
        None => Err(CryptoError::NotInitialized),
        Some(k) => if nonce.len() != NONCE_LEN {
            Err(CryptoError::EncryptionFailed)
        } else {
            match aes_gcm_sealed(k, nonce, encode_utf8(text)) {
                None => Err(CryptoError::EncryptionFailed),
                Some(sealed) => if encodable(nonce.len() + sealed.len()) {
                    Ok(base64_encoded(nonce + sealed))
                } else {
                    Err(CryptoError::EncryptionFailed)
                },
            }
        },
    }
}

/// Whether encrypting `text` under `key` with a freshly drawn nonce can
/// end in `outcome`: without a key it is `NotInitialized`; otherwise the
/// randomness source fails, or the outcome is that of sealing under some
/// 12-byte nonce, which an envelope then carries in its first bytes.
pub open spec fn may_encrypt_to(
    key: Option<Seq<u8>>,
    text: Seq<char>,
    outcome: Result<Seq<char>, CryptoError>,
) -> bool {
    match key {
        None => outcome == Err::<Seq<char>, CryptoError>(CryptoError::NotInitialized),
        Some(k) => {
            ||| outcome == Err::<Seq<char>, CryptoError>(CryptoError::RandomFailure)
            ||| exists|nonce: Seq<u8>|
                nonce.len() == NONCE_LEN && outcome == #[trigger] envelope_of(key, nonce, text)
                    && (outcome matches Ok(envelope) ==> well_shaped(envelope, nonce, text))
        },
    }
}

/// What decrypting `input` gives once the decoder has answered. A value
/// that does not pass the shape test is legacy plaintext and comes back
/// unchanged, whatever the key; anything else must authenticate under the
/// key, nonce first and sealed bytes after it, and hold valid UTF-8.
pub open spec fn decrypted_from(
    key: Option<Seq<u8>>,
    input: Seq<char>,
    decoded: Option<Seq<u8>>,
) -> Result<Seq<char>, CryptoError> {
    if !shaped(input.len() == 0, decoded) {
        Ok(input)
    } else {
        match key {
            None => Err(CryptoError::NotInitialized),
            Some(k) => {
                let raw = decoded.unwrap();
                match aes_gcm_opened(
                    k,
                    raw.subrange(0, NONCE_LEN as int),
                    raw.subrange(NONCE_LEN as int, raw.len() as int),
                ) {
                    None => Err(CryptoError::DecryptionFailed),
                    Some(plain) => if valid_utf8(plain) {
                        Ok(decode_utf8(plain))
                    } else {
                        Err(CryptoError::EncodingError)
                    },
                }
            },
        }
    }
}

/// What decrypting `input` under `key` gives.
pub open spec fn decrypted(
    key: Option<Seq<u8>>,
    input: Seq<char>,
) -> Result<Seq<char>, CryptoError> {
    decrypted_from(key, input, base64_decoded(input))
}

/// What the decoder returned, with the bytes taken by their view.
pub open spec fn decoded_view(decoded: Option<Vec<u8>>) -> Option<Seq<u8>> {
    match decoded {
        Some(raw) => Some(raw@),
        None => None,
    }
}

/// A stored secret with its text taken by its view.
pub open spec fn secret_view(secret: Option<String>) -> Option<Seq<char>> {
    match secret {
        Some(text) => Some(text@),
        None => None,
    }
}

/// The password that a record's stored secret stands for: the empty
/// password where none is stored, else what the stored value decrypts to.
pub open spec fn password_for_use(
    key: Option<Seq<u8>>,
    secret: Option<Seq<char>>,
) -> Result<Seq<char>, CryptoError> {
    match secret {
        None => Ok(Seq::empty()),
        Some(text) => decrypted(key, text),
    }
}

/// A text result with the text taken by its view.
pub open spec fn text_result(res: Result<String, CryptoError>) -> Result<Seq<char>, CryptoError> {
    match res {
        Ok(text) => Ok(text@),
        Err(e) => Err(e),
    }
}

/// The UTF-8 encoding of a non-empty text is non-empty, and that of the
/// empty text is empty.
pub proof fn lemma_utf8_len(text: Seq<char>)
    ensures
        (encode_utf8(text).len() == 0) == (text.len() == 0),
{
    if text.len() > 0 {
        assert(encode_scalar(text[0] as u32).len() >= 1);
    }
}

/// Decides whether `n` raw bytes can be encoded.
fn fits_encoding(n: usize) -> (fits: bool)
    ensures
        fits == encodable(n as nat),
{
    let rest: usize = if n % 3 == 0 {
        0
    } else {
        1
    };
    let groups: usize = n / 3 + rest;
    let limit: usize = (isize::MAX as usize) / 4;
    assert(groups == (n + 2) / 3);
    groups <= limit
}

/// The shape test on what the decoder returned for a value: whether a
/// non-empty value decoded to at least `MIN_ENVELOPE_LEN` bytes.
pub fn classify_decoded(value_is_empty: bool, decoded: &Option<Vec<u8>>) -> (passes: bool)
    ensures
        passes == shaped(value_is_empty, decoded_view(*decoded)),
{
    if value_is_empty {
        return false;
    }
    match decoded {
        Some(raw) => raw.len() >= MIN_ENVELOPE_LEN,
        None => false,
    }
}

/// The classifier: whether `value` has the shape of an envelope. It looks
/// at length and base64 validity only, never at a key.
pub fn is_encrypted(value: &str) -> (passes: bool)
    ensures
        passes == looks_encrypted(value@),
{
    if value.is_empty() {
        return false;
    }
    let decoded = decode_base64(value);
    classify_decoded(false, &decoded)
}

/// Seals `password` under the adopted key and the given nonce and returns
/// the envelope: base64 text of the nonce followed by the sealed bytes.
/// Opening a returned envelope of a non-empty password gives the password
/// back; the envelope of the empty password decodes to 28 bytes, does not
/// look encrypted, and so decrypts to itself.
pub fn encrypt_with_nonce(
    key: &KeyCell,
    nonce: &[u8],
    password: &str,
) -> (res: Result<String, CryptoError>)
    ensures
        text_result(res) == envelope_of(key.material(), nonce@, password@),
        res matches Ok(envelope) ==> well_shaped(envelope@, nonce@, password@),
        res matches Ok(envelope) ==> looks_encrypted(envelope@) == (password@.len() > 0),
        res matches Ok(envelope) ==> decrypted(key.material(), envelope@) == Ok::<
            Seq<char>,
            CryptoError,
        >(if password@.len() > 0 {
            password@
        } else {
            envelope@
        }),
{
    let key_bytes = match key.current_key() {
        Ok(bytes) => bytes,
        Err(e) => { return Err(e); },
    };
    if nonce.len() != NONCE_LEN {
        return Err(CryptoError::EncryptionFailed);
    }
    let plain = password.as_bytes();
    let sealed = match seal_message(key_bytes.as_slice(), nonce, plain) {
        Some(sealed) => sealed,
        None => { return Err(CryptoError::EncryptionFailed); },
    };
    if sealed.len() > usize::MAX - NONCE_LEN || !fits_encoding(NONCE_LEN + sealed.len()) {
        return Err(CryptoError::EncryptionFailed);
    }
    let mut raw: Vec<u8> = Vec::with_capacity(NONCE_LEN + sealed.len());
    raw.extend_from_slice(nonce);
    raw.extend_from_slice(sealed.as_slice());
    assert(raw@ =~= nonce@ + sealed@);
    let envelope = encode_base64(raw.as_slice());
    proof {
        lemma_utf8_len(password@);
        encode_utf8_valid_utf8(password@);
        encode_utf8_decode_utf8(password@);
        assert(raw@.subrange(0, NONCE_LEN as int) =~= nonce@);
        assert(raw@.subrange(NONCE_LEN as int, raw@.len() as int) =~= sealed@);
    }
    Ok(envelope)
}

/// Encrypts `password` under the adopted key with a nonce drawn fresh from
/// the system's randomness source for this call.
///
/// Fails with `NotInitialized` before a key was adopted. Otherwise the
/// outcome is that of sealing under some 12-byte nonce, unless the
/// randomness source fails. A returned envelope is padded base64 of 28
/// bytes more than the password's UTF-8 encoding.
pub fn encrypt_password(key: &KeyCell, password: &str) -> (res: Result<String, CryptoError>)
    ensures
        may_encrypt_to(key.material(), password@, text_result(res)),
        res matches Ok(envelope) ==> envelope@.len() == encoded_len(raw_len(password@)),
        res matches Ok(envelope) ==> (base64_decoded(envelope@) matches Some(raw) && raw.len()
            == raw_len(password@)),
        res matches Ok(envelope) ==> looks_encrypted(envelope@) == (password@.len() > 0),
        res matches Ok(envelope) ==> decrypted(key.material(), envelope@) == Ok::<
            Seq<char>,
            CryptoError,
        >(if password@.len() > 0 {
            password@
        } else {
            envelope@
        }),
{
    if !key.is_initialized() {
        return Err(CryptoError::NotInitialized);
    }
    match fresh_bytes(NONCE_LEN) {
        None => Err(CryptoError::RandomFailure),
        Some(nonce) => {
            let res = encrypt_with_nonce(key, nonce.as_slice(), password);
            assert(text_result(res) == envelope_of(key.material(), nonce@, password@));
            res
        },
    }
}

/// Finishes a decryption once the decoder has answered for `encrypted`.
///
/// A value that does not pass the shape test is returned unchanged without
/// touching the key. Anything else is split into nonce and sealed bytes
/// and opened under the adopted key: `NotInitialized` without a key,
/// `DecryptionFailed` where authentication fails, `EncodingError` where
/// the recovered bytes are not UTF-8.
pub fn decrypt_decoded(
    key: &KeyCell,
    encrypted: &str,
    decoded: &Option<Vec<u8>>,
) -> (res: Result<String, CryptoError>)
    ensures
        text_result(res) == decrypted_from(key.material(), encrypted@, decoded_view(*decoded)),
{
    if !classify_decoded(encrypted.is_empty(), decoded) {
        return Ok(encrypted.to_owned());
    }
    let raw = match decoded {
        Some(raw) => raw,
        None => { return Ok(encrypted.to_owned()); },
    };
    let key_bytes = match key.current_key() {
        Ok(bytes) => bytes,
        Err(e) => { return Err(e); },
    };
    let nonce = slice_subrange(raw.as_slice(), 0, NONCE_LEN);
    let sealed = slice_subrange(raw.as_slice(), NONCE_LEN, raw.len());
    let plain = match open_message(key_bytes.as_slice(), nonce, sealed) {
        Some(plain) => plain,
        None => { return Err(CryptoError::DecryptionFailed); },
    };
    match text_from_utf8(plain) {
        Some(text) => {
            proof {
                encode_utf8_decode_utf8(text@);
            }
            Ok(text)
        },
        None => Err(CryptoError::EncodingError),
    }
}

/// Recovers the password from `encrypted`.
///
/// Empty input, input that is not base64 and input that decodes to fewer
/// than `MIN_ENVELOPE_LEN` bytes is taken for legacy plaintext and returned
/// unchanged without touching the key. Anything else is opened under the
/// adopted key: `DecryptionFailed` where authentication fails,
/// `EncodingError` where the recovered bytes are not UTF-8.
pub fn decrypt_password(key: &KeyCell, encrypted: &str) -> (res: Result<String, CryptoError>)
    ensures
        text_result(res) == decrypted(key.material(), encrypted@),
{
    if encrypted.is_empty() {
        assert(encrypted@ =~= Seq::<char>::empty());
        return Ok(String::new());
    }
    let decoded = decode_base64(encrypted);
    decrypt_decoded(key, encrypted, &decoded)
}

/// The password to connect with, for a record's stored secret: the empty
/// password where the record holds none, else what the stored value
/// decrypts to, legacy plaintext being used as it is.
pub fn stored_password(
    key: &KeyCell,
    secret: &Option<String>,
) -> (res: Result<String, CryptoError>)
    ensures
        text_result(res) == password_for_use(key.material(), secret_view(*secret)),
{
    match secret {
        None => Ok(String::new()),
        Some(text) => {
            if is_encrypted(text.as_str()) {
                decrypt_password(key, text.as_str())
            } else {
                Ok(text.clone())
            }
        },
    }
}

} // verus!
