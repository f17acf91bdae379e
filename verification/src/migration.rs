use crate::encryption::{
    decrypted, encrypt_password, is_encrypted, looks_encrypted, may_encrypt_to, secret_view,
};
use crate::error::CryptoError;
use crate::key::KeyCell;
use vstd::prelude::*;

verus! {

/// What the upgrade did to one stored secret.
#[derive(Clone, Copy, Debug, PartialEq, Eq, Structural)]
pub enum RecordOutcome {
    /// Absent, empty or already an envelope: left as it was.
    Unchanged,
    /// Legacy plaintext that was replaced by its envelope.
    Changed,
    /// Legacy plaintext that could not be encrypted and was left as it was.
    Failed(CryptoError),
}

/// The result of one upgrade pass over a collection of stored secrets.
pub struct MigrationReport {
    /// One outcome for each record, in the collection's order.
    pub outcomes: Vec<RecordOutcome>,
    /// Whether any record changed, so that the collection must be persisted.
    pub updated: bool,
}

/// A collection of stored secrets, each taken by its view.
pub open spec fn secrets_view(secrets: Seq<Option<String>>) -> Seq<Option<Seq<char>>> {
    Seq::new(secrets.len(), |i: int| secret_view(secrets[i]))
}

/// Whether a stored secret is legacy plaintext: present, non-empty and not
/// shaped like an envelope.
pub open spec fn needs_migration(secret: Option<Seq<char>>) -> bool {
    secret matches Some(text) && text.len() > 0 && !looks_encrypted(text)
}

/// How one record's secret after the pass relates to the secret before
/// it. A changed record holds an envelope that encrypting the old secret
/// can return, that is recognised as an envelope and that opens to the old
/// secret again; a failed one is as it was, with an error that encrypting
/// the old secret can end in.
pub open spec fn record_migrated(
    key: Option<Seq<u8>>,
    before: Option<Seq<char>>,
    after: Option<Seq<char>>,
    outcome: RecordOutcome,
) -> bool {
    match outcome {
        RecordOutcome::Unchanged => !needs_migration(before) && after == before,
        RecordOutcome::Changed => needs_migration(before) && (after matches Some(envelope)
            && may_encrypt_to(key, before.unwrap(), Ok(envelope)) && looks_encrypted(envelope)
            && decrypted(key, envelope) == Ok::<Seq<char>, CryptoError>(before.unwrap())),
        RecordOutcome::Failed(error) => needs_migration(before) && after == before
            && may_encrypt_to(key, before.unwrap(), Err(error)),
    }
}

/// How a whole collection after the pass relates to the collection before
/// it: record by record, with `updated` set exactly when a record changed.
pub open spec fn migrated(
    key: Option<Seq<u8>>,
    before: Seq<Option<Seq<char>>>,
    after: Seq<Option<Seq<char>>>,
    outcomes: Seq<RecordOutcome>,
    updated: bool,
) -> bool {
    &&& after.len() == before.len()
    &&& outcomes.len() == before.len()
    &&& forall|i: int|
        0 <= i < before.len() ==> #[trigger] record_migrated(
            key,
            before[i],
            after[i],
            outcomes[i],
        )
    &&& updated == exists|i: int|
        0 <= i < outcomes.len() && #[trigger] outcomes[i] == RecordOutcome::Changed
}

/// Folds the result of encrypting one legacy secret into the record: an
/// envelope replaces the secret, a failure leaves the record untouched.
pub fn apply_encryption(
    secret: &mut Option<String>,
    encrypted: Result<String, CryptoError>,
) -> (outcome: RecordOutcome)
    ensures
        match encrypted {
            Ok(envelope) => outcome == RecordOutcome::Changed && *final(secret) == Some(envelope),
            Err(error) => outcome == RecordOutcome::Failed(error) && *final(secret) == *old(secret),
        },
{
    match encrypted {
        Ok(envelope) => {
            *secret = Some(envelope);
            RecordOutcome::Changed
        },
        Err(error) => RecordOutcome::Failed(error),
    }
}

/// Upgrades one stored secret: legacy plaintext is replaced by its
/// envelope; a failure to encrypt leaves it untouched.
pub fn migrate_record(key: &KeyCell, secret: &mut Option<String>) -> (outcome: RecordOutcome)
    ensures
        record_migrated(
            key.material(),
            secret_view(*old(secret)),
            secret_view(*final(secret)),
            outcome,
        ),
{
    let encrypted = match &*secret {
        None => { return RecordOutcome::Unchanged; },
        Some(text) => {
            if text.as_str().is_empty() || is_encrypted(text.as_str()) {
                return RecordOutcome::Unchanged;
            }
            encrypt_password(key, text.as_str())
        },
    };
    apply_encryption(secret, encrypted)
}

/// The one-time upgrade of a collection of stored secrets, in place.
///
/// Every secret that is present, non-empty and not shaped like an envelope
/// is encrypted under the adopted key. A record whose encryption fails is
/// reported and left as it was, and the pass goes on with the next one.
/// The report's `updated` tells whether anything changed: only then is
/// there anything to persist.
pub fn migrate_existing_connections(
    key: &KeyCell,
    secrets: &mut Vec<Option<String>>,
) -> (report: MigrationReport)
    ensures
        migrated(
            key.material(),
            secrets_view(old(secrets)@),
            secrets_view(final(secrets)@),
            report.outcomes@,
            report.updated,
        ),
{
    let ghost before = secrets@;
    let mut outcomes: Vec<RecordOutcome> = Vec::new();
    let mut updated = false;
    let mut i: usize = 0;
    while i < secrets.len()
        invariant
            i <= secrets.len(),
            secrets.len() == before.len(),
            outcomes.len() == i,
            forall|j: int|
                0 <= j < i ==> #[trigger] record_migrated(
                    key.material(),
                    secret_view(before[j]),
                    secret_view(secrets@[j]),
                    outcomes@[j],
                ),
            forall|j: int| i <= j < secrets.len() ==> secrets@[j] == before[j],
            updated == exists|j: int|
                0 <= j < outcomes.len() && #[trigger] outcomes@[j] == RecordOutcome::Changed,
        decreases secrets.len() - i,
    {
        let ghost earlier = outcomes@;
        let mut secret: Option<String> = None;
        secrets.set_and_swap(i, &mut secret);
        let outcome = migrate_record(key, &mut secret);
        secrets.set(i, secret);
        outcomes.push(outcome);
        if outcome == RecordOutcome::Changed {
            updated = true;
        }
        proof {
            assert(forall|j: int| 0 <= j < i ==> outcomes@[j] == earlier[j]);
            if outcome == RecordOutcome::Changed {
                assert(outcomes@[i as int] == RecordOutcome::Changed);
            }
        }
        i = i + 1;
    }
    MigrationReport { outcomes, updated }
}

} // verus!
