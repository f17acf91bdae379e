use vstd::prelude::*;

verus! {

/// Why a key or cipher operation produced no value.
#[derive(Clone, Copy, Debug, PartialEq, Eq, Structural)]
pub enum CryptoError {
    /// The cipher was used before a master key was adopted.
    NotInitialized,
    /// A master key was already adopted; it is never replaced.
    AlreadyInitialized,
    /// The backing key store could not be opened, read or written.
    KeyStoreError,
    /// The key material is unusable: the stored text is not valid base64,
    /// or the key is not 32 bytes long.
    KeyDecodeError,
    /// The system's randomness source failed.
    RandomFailure,
    /// The cipher refused to seal the plaintext, or the envelope would be
    /// too long to encode.
    EncryptionFailed,
    /// Authentication failed: tampered data, wrong key or a corrupted store.
    DecryptionFailed,
    /// The recovered bytes are not valid UTF-8 text.
    EncodingError,
}

/// The message that goes with each error.
pub open spec fn message_text(error: CryptoError) -> Seq<char> {
    match error {
        CryptoError::NotInitialized => "Encryption not initialized"@,
        CryptoError::AlreadyInitialized => "Failed to set master key"@,
        CryptoError::KeyStoreError => "Failed to access encryption store"@,
        CryptoError::KeyDecodeError => "Failed to decode key"@,
        CryptoError::RandomFailure => "Failed to generate random bytes"@,
        CryptoError::EncryptionFailed => "Failed to encrypt password"@,
        CryptoError::DecryptionFailed => "Failed to decrypt - password may be corrupted"@,
        CryptoError::EncodingError => "Failed to convert decrypted bytes to string"@,
    }
}

impl CryptoError {
    /// The error as a message for the user.
    pub fn message(&self) -> (text: String)
        ensures
            text@ == message_text(*self),
    {
        let text: &str = match self {
            CryptoError::NotInitialized => "Encryption not initialized",
            CryptoError::AlreadyInitialized => "Failed to set master key",
            CryptoError::KeyStoreError => "Failed to access encryption store",
            CryptoError::KeyDecodeError => "Failed to decode key",
            CryptoError::RandomFailure => "Failed to generate random bytes",
            CryptoError::EncryptionFailed => "Failed to encrypt password",
            CryptoError::DecryptionFailed => "Failed to decrypt - password may be corrupted",
            CryptoError::EncodingError => "Failed to convert decrypted bytes to string",
        };
        text.to_owned()
    }
}

} // verus!
