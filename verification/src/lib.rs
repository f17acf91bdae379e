//! Protection of stored credentials: a write-once master key, authenticated
//! encryption of secrets into self-contained text envelopes, a classifier
//! that tells envelopes from legacy plaintext, and the one-time upgrade of
//! a collection of stored secrets.

pub mod error;
pub mod codec;
pub mod aead;
pub mod random;
pub mod key;
pub mod encryption;
pub mod migration;
pub mod laws;
