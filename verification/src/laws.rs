use crate::aead::{aes_gcm_opened, NONCE_LEN};
use crate::codec::encoded_len;
use crate::codec::base64_decoded;
use crate::encryption::{
    decrypted, looks_encrypted, password_for_use, raw_len, well_shaped, MIN_ENVELOPE_LEN,
};
use vstd::utf8::encode_utf8;
use crate::error::CryptoError;
use crate::migration::{migrated, needs_migration, record_migrated, RecordOutcome};
use vstd::prelude::*;

verus! {

/// A record that an upgrade pass changed or left unchanged is no longer
/// legacy plaintext: the classifier recognises what the pass wrote.
pub proof fn law_migrated_record_is_settled(
    key: Option<Seq<u8>>,
    before: Option<Seq<char>>,
    after: Option<Seq<char>>,
    outcome: RecordOutcome,
)
    requires
        record_migrated(key, before, after, outcome),
        !(outcome is Failed),
    ensures
        !needs_migration(after),
{
}

/// Running the upgrade a second time on the collection that a first pass
/// left, where no record of the first pass failed, changes no record and
/// reports nothing to persist, whatever key the second pass runs under.
pub proof fn law_second_pass_changes_nothing(
    first_key: Option<Seq<u8>>,
    second_key: Option<Seq<u8>>,
    before: Seq<Option<Seq<char>>>,
    between: Seq<Option<Seq<char>>>,
    first_outcomes: Seq<RecordOutcome>,
    first_updated: bool,
    after: Seq<Option<Seq<char>>>,
    second_outcomes: Seq<RecordOutcome>,
    second_updated: bool,
)
    requires
        migrated(first_key, before, between, first_outcomes, first_updated),
        forall|i: int| 0 <= i < first_outcomes.len() ==> !(#[trigger] first_outcomes[i] is Failed),
        migrated(second_key, between, after, second_outcomes, second_updated),
    ensures
        after == between,
        !second_updated,
        forall|i: int|
            0 <= i < second_outcomes.len() ==> #[trigger] second_outcomes[i]
                == RecordOutcome::Unchanged,
{
    assert forall|i: int| 0 <= i < between.len() implies !needs_migration(
        #[trigger] between[i],
    ) by {
        assert(!(first_outcomes[i] is Failed));
        law_migrated_record_is_settled(first_key, before[i], between[i], first_outcomes[i]);
    }
    law_settled_collection_is_left_alone(
        second_key,
        between,
        after,
        second_outcomes,
        second_updated,
    );
}

/// A pass over a collection in which no record is legacy plaintext changes
/// nothing and reports nothing to persist.
pub proof fn law_settled_collection_is_left_alone(
    key: Option<Seq<u8>>,
    before: Seq<Option<Seq<char>>>,
    after: Seq<Option<Seq<char>>>,
    outcomes: Seq<RecordOutcome>,
    updated: bool,
)
    requires
        forall|i: int| 0 <= i < before.len() ==> !needs_migration(#[trigger] before[i]),
        migrated(key, before, after, outcomes, updated),
    ensures
        after == before,
        !updated,
        forall|i: int|
            0 <= i < outcomes.len() ==> #[trigger] outcomes[i] == RecordOutcome::Unchanged,
{
    assert forall|i: int| 0 <= i < before.len() implies #[trigger] after[i] == before[i] by {
        assert(record_migrated(key, before[i], after[i], outcomes[i]));
    }
    assert forall|i: int| 0 <= i < outcomes.len() implies #[trigger] outcomes[i]
        == RecordOutcome::Unchanged by {
        assert(!needs_migration(before[i]));
        assert(record_migrated(key, before[i], after[i], outcomes[i]));
    }
    assert(after =~= before);
}

/// An upgrade pass never changes the password that a record stands for:
/// under the key of the pass, every record resolves after the pass to what
/// it resolved to before, whether it was changed, skipped or failed.
pub proof fn law_migration_preserves_passwords(
    key: Option<Seq<u8>>,
    before: Seq<Option<Seq<char>>>,
    after: Seq<Option<Seq<char>>>,
    outcomes: Seq<RecordOutcome>,
    updated: bool,
)
    requires
        migrated(key, before, after, outcomes, updated),
    ensures
        forall|i: int|
            0 <= i < before.len() ==> password_for_use(key, #[trigger] after[i])
                == password_for_use(key, before[i]),
{
    assert forall|i: int| 0 <= i < before.len() implies password_for_use(key, #[trigger] after[i])
        == password_for_use(key, before[i]) by {
        assert(record_migrated(key, before[i], after[i], outcomes[i]));
    }
}

/// A value that decodes to at least `MIN_ENVELOPE_LEN` bytes is never
/// handed back as legacy plaintext: under an adopted key, decrypting it
/// fails with `DecryptionFailed` exactly when the cipher does not
/// authenticate it.
pub proof fn law_failed_authentication_is_surfaced(key: Seq<u8>, input: Seq<char>, raw: Seq<u8>)
    requires
        input.len() > 0,
        base64_decoded(input) == Some(raw),
        raw.len() >= MIN_ENVELOPE_LEN,
    ensures
        looks_encrypted(input),
        aes_gcm_opened(
            key,
            raw.subrange(0, NONCE_LEN as int),
            raw.subrange(NONCE_LEN as int, raw.len() as int),
        ) is None <==> decrypted(Some(key), input) == Err::<Seq<char>, CryptoError>(
            CryptoError::DecryptionFailed,
        ),
{
}

/// Envelopes that carry different nonces are different texts, whatever
/// they seal: two encryptions collide only where their nonces do.
pub proof fn law_envelopes_of_distinct_nonces_differ(
    first: Seq<char>,
    first_nonce: Seq<u8>,
    first_text: Seq<char>,
    second: Seq<char>,
    second_nonce: Seq<u8>,
    second_text: Seq<char>,
)
    requires
        well_shaped(first, first_nonce, first_text),
        well_shaped(second, second_nonce, second_text),
        first_nonce != second_nonce,
    ensures
        first != second,
{
}

/// An envelope decodes to 28 bytes more than the UTF-8 encoding of what it
/// seals, and has four characters for every started group of three of
/// those bytes.
pub proof fn law_envelope_lengths(envelope: Seq<char>, nonce: Seq<u8>, text: Seq<char>)
    requires
        well_shaped(envelope, nonce, text),
    ensures
        base64_decoded(envelope) matches Some(raw) && raw.len() == encode_utf8(text).len() + 28,
        envelope.len() == 4 * ((encode_utf8(text).len() + 30) / 3),
{
    assert(raw_len(text) == encode_utf8(text).len() + 28);
    assert(encoded_len(raw_len(text)) == 4 * ((encode_utf8(text).len() + 30) / 3));
}

/// The envelope of the empty password has 40 characters and decodes to 28
/// bytes, nonce and tag only: one byte short of what counts as encrypted.
pub proof fn law_envelope_of_the_empty_password(envelope: Seq<char>, nonce: Seq<u8>)
    requires
        well_shaped(envelope, nonce, Seq::<char>::empty()),
    ensures
        envelope.len() == 40,
        base64_decoded(envelope) matches Some(raw) && raw.len() == 28,
        !looks_encrypted(envelope),
{
    assert(encode_utf8(Seq::<char>::empty()).len() == 0);
}

/// Legacy plaintext decrypts to itself, with or without an adopted key.
pub proof fn law_legacy_value_is_returned_unchanged(key: Option<Seq<u8>>, input: Seq<char>)
    requires
        !looks_encrypted(input),
    ensures
        decrypted(key, input) == Ok::<Seq<char>, CryptoError>(input),
{
}

} // verus!
