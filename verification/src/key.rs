use crate::aead::KEY_LEN;
use crate::codec::{base64_decoded, base64_encoded, decode_base64, encode_base64, encoded_len};
use crate::error::CryptoError;
use crate::random::fresh_bytes;
use vstd::prelude::*;

verus! {

/// The master key of one process: empty at first, written at most once,
/// read many times afterwards. A key that it holds is `KEY_LEN` bytes long.
pub struct KeyCell {
    key: Option<Vec<u8>>,
}

/// The key that a key-store entry stands for: the bytes that the text
/// decodes to, where they are a key's length; `None` for any other text.
pub open spec fn stored_key(text: Seq<char>) -> Option<Seq<u8>> {
    match base64_decoded(text) {
        Some(key) => if key.len() == KEY_LEN {
            Some(key)
        } else {
            None
        },
        None => None,
    }
}

/// Number of characters in the base64 text of a key.
pub const ENCODED_KEY_LEN: usize = 44;

impl KeyCell {
    #[verifier::type_invariant]
    spec fn holds_whole_key(self) -> bool {
        self.key matches Some(key) ==> key@.len() == KEY_LEN
    }

    /// The adopted key material, `None` until a key has been adopted.
    pub closed spec fn material(&self) -> Option<Seq<u8>> {
        match self.key {
            Some(key) => Some(key@),
            None => None,
        }
    }

    /// A cell that holds no key yet.
    pub fn new() -> (cell: Self)
        ensures
            cell.material() is None,
    {
        KeyCell { key: None }
    }

    /// Whether a key has been adopted.
    pub fn is_initialized(&self) -> (set: bool)
        ensures
            set == (self.material() is Some),
            self.material() matches Some(key) ==> key.len() == KEY_LEN,
    {
        proof {
            use_type_invariant(self);
        }
        self.key.is_some()
    }

    /// Adopts `key` if it is `KEY_LEN` bytes long and the cell is still
    /// empty. Key material of another length is a `KeyDecodeError`; a cell
    /// that already holds a key refuses with `AlreadyInitialized`. A cell
    /// that refuses is left as it was.
    pub fn set(&mut self, key: Vec<u8>) -> (res: Result<(), CryptoError>)
        ensures
            res == if key@.len() != KEY_LEN {
                Err::<(), CryptoError>(CryptoError::KeyDecodeError)
            } else if old(self).material() is Some {
                Err(CryptoError::AlreadyInitialized)
            } else {
                Ok(())
            },
            final(self).material() == if res is Ok {
                Some(key@)
            } else {
                old(self).material()
            },
            final(self).material() matches Some(held) ==> held.len() == KEY_LEN,
    {
        proof {
            use_type_invariant(&*self);
        }
        if key.len() != KEY_LEN {
            return Err(CryptoError::KeyDecodeError);
        }
        if self.key.is_some() {
            return Err(CryptoError::AlreadyInitialized);
        }
        self.key = Some(key);
        Ok(())
    }

    /// The adopted key, which is `KEY_LEN` bytes long, or `NotInitialized`
    /// before any key was adopted.
    pub fn current_key(&self) -> (res: Result<&Vec<u8>, CryptoError>)
        ensures
            match self.material() {
                Some(key) => res matches Ok(bytes) && bytes@ == key && key.len() == KEY_LEN,
                None => res == Err::<&Vec<u8>, CryptoError>(CryptoError::NotInitialized),
            },
    {
        proof {
            use_type_invariant(self);
        }
        match &self.key {
            Some(key) => Ok(key),
            None => Err(CryptoError::NotInitialized),
        }
    }
}

/// Adopts the key that the key store holds as base64 text. Text that is not
/// valid base64, or that decodes to anything but `KEY_LEN` bytes, is a
/// `KeyDecodeError`; a cell that already holds a key refuses a usable key
/// with `AlreadyInitialized`. A cell that refuses is left as it was.
pub fn adopt_stored_key(cell: &mut KeyCell, stored: &str) -> (res: Result<(), CryptoError>)
    ensures
        res == match stored_key(stored@) {
            None => Err::<(), CryptoError>(CryptoError::KeyDecodeError),
            Some(key) => if old(cell).material() is Some {
                Err(CryptoError::AlreadyInitialized)
            } else {
                Ok(())
            },
        },
        final(cell).material() == match (old(cell).material(), stored_key(stored@)) {
            (None, Some(key)) => Some(key),
            _ => old(cell).material(),
        },
        final(cell).material() matches Some(held) ==> held.len() == KEY_LEN,
{
    match decode_base64(stored) {
        None => {
            proof {
                use_type_invariant(&*cell);
            }
            Err(CryptoError::KeyDecodeError)
        },
        Some(key) => match cell.set(key) {
            Ok(()) => Ok(()),
            Err(e) => Err(e),
        },
    }
}

/// Adopts a freshly drawn key and returns its base64 text, which the
/// caller writes to the key store: 44 characters that stand for this key
/// when a later run reads them back. A cell that already holds a key
/// refuses with `AlreadyInitialized` and keeps its key.
pub fn adopt_fresh_key(cell: &mut KeyCell, key: Vec<u8>) -> (res: Result<String, CryptoError>)
    requires
        key@.len() == KEY_LEN,
    ensures
        old(cell).material() is None ==> (res matches Ok(text) && text@ == base64_encoded(key@)
            && text@.len() == ENCODED_KEY_LEN && base64_decoded(text@) == Some(key@)
            && stored_key(text@) == Some(key@)) && final(cell).material() == Some(key@),
        old(cell).material() is Some ==> res == Err::<String, CryptoError>(
            CryptoError::AlreadyInitialized,
        ) && final(cell).material() == old(cell).material(),
        final(cell).material() matches Some(held) ==> held.len() == KEY_LEN,
{
    assert(encoded_len(32) == 44);
    let text = encode_base64(key.as_slice());
    match cell.set(key) {
        Ok(()) => Ok(text),
        Err(e) => Err(e),
    }
}

/// Sets up the master key at process start: adopts the stored key where
/// the key store holds one, else draws 32 random bytes, adopts them and
/// returns their base64 text for the caller to persist.
///
/// `stored` is the key store's entry, if any. `Ok(None)` means that the
/// stored key was adopted and nothing is to be written. A stored entry
/// that is not the base64 text of 32 bytes is a `KeyDecodeError`. The text
/// returned for a fresh key stands for that key: a later run that is given
/// it as `stored` adopts the same key.
pub fn initialize_encryption(
    cell: &mut KeyCell,
    stored: Option<&str>,
) -> (res: Result<Option<String>, CryptoError>)
    ensures
        old(cell).material() is Some ==> res is Err,
        res is Err ==> final(cell).material() == old(cell).material(),
        final(cell).material() matches Some(held) ==> held.len() == KEY_LEN,
        match stored {
            Some(text) => match stored_key(text@) {
                None => res == Err::<Option<String>, CryptoError>(CryptoError::KeyDecodeError),
                Some(key) => if old(cell).material() is Some {
                    res == Err::<Option<String>, CryptoError>(CryptoError::AlreadyInitialized)
                } else {
                    res == Ok::<Option<String>, CryptoError>(None) && final(cell).material()
                        == Some(key)
                },
            },
            None => match res {
                Ok(Some(encoded)) => {
                    &&& old(cell).material() is None
                    &&& encoded@.len() == ENCODED_KEY_LEN
                    &&& final(cell).material() matches Some(key) && key.len() == KEY_LEN
                        && encoded@ == base64_encoded(key) && base64_decoded(encoded@) == Some(key)
                        && stored_key(encoded@) == Some(key)
                },
                Ok(None) => false,
                Err(e) => {
                    ||| e == CryptoError::RandomFailure
                    ||| e == CryptoError::AlreadyInitialized && old(cell).material() is Some
                },
            },
        },
{
    match stored {
        Some(text) => match adopt_stored_key(cell, text) {
            Ok(()) => Ok(None),
            Err(e) => Err(e),
        },
        None => match fresh_bytes(KEY_LEN) {
            None => {
                proof {
                    use_type_invariant(&*cell);
                }
                Err(CryptoError::RandomFailure)
            },
            Some(key) => match adopt_fresh_key(cell, key) {
                Ok(encoded) => Ok(Some(encoded)),
                Err(e) => Err(e),
            },
        },
    }
}

/// Ends key setup once the caller has tried to write what
/// `initialize_encryption` returned to the key store. `written` is `None`
/// where nothing had to be written, else whether the write and flush
/// succeeded. A key that did not reach the store is not kept: that is a
/// `KeyStoreError`. Otherwise the cell is handed on unchanged, to be
/// published for the rest of the process.
pub fn finish_setup(cell: KeyCell, written: Option<bool>) -> (res: Result<KeyCell, CryptoError>)
    ensures
        res == if written == Some(false) {
            Err::<KeyCell, CryptoError>(CryptoError::KeyStoreError)
        } else {
            Ok(cell)
        },
{
    match written {
        Some(false) => Err(CryptoError::KeyStoreError),
        _ => Ok(cell),
    }
}

} // verus!
