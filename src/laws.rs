//! Properties of creation and lookup taken together.
use vstd::prelude::*;
use anchor_lang::solana_program::pubkey::Pubkey;
use crate::address::address_of;
use crate::record::{byte_len, BatchCreated, BatchData, TracerootsError, MAX_FIELD_LEN};
use crate::store::{create_outcome, lookup, new_record};

verus! {

/// Valid inputs for a batch whose address is free create its record.
pub proof fn lemma_fresh_batch_is_created(
    m: Map<Seq<u8>, BatchData>,
    user: Pubkey,
    now: i64,
    batch_id: String,
    crop_type: String,
    origin_hash: [u8; 32],
    expiry_date: i64,
)
    requires
        byte_len(&batch_id) <= MAX_FIELD_LEN,
        byte_len(&crop_type) <= MAX_FIELD_LEN,
        expiry_date > now,
        !m.contains_key(address_of(batch_id@)),
    ensures
        create_outcome(m, user, now, batch_id, crop_type, origin_hash, expiry_date).1 is Ok,
        create_outcome(m, user, now, batch_id, crop_type, origin_hash, expiry_date).0.contains_key(
            address_of(batch_id@),
        ),
{
}

/// Once a batch has been created, a second creation with the same
/// identifier and otherwise valid inputs fails with `DuplicateBatch`, whoever
/// calls, whenever, with whatever payload, and writes nothing.
pub proof fn lemma_second_creation_is_duplicate(
    m: Map<Seq<u8>, BatchData>,
    user: Pubkey,
    now: i64,
    batch_id: String,
    crop_type: String,
    origin_hash: [u8; 32],
    expiry_date: i64,
    user2: Pubkey,
    now2: i64,
    batch_id2: String,
    crop_type2: String,
    origin_hash2: [u8; 32],
    expiry_date2: i64,
)
    requires
        create_outcome(m, user, now, batch_id, crop_type, origin_hash, expiry_date).1 is Ok,
        batch_id2@ == batch_id@,
        byte_len(&crop_type2) <= MAX_FIELD_LEN,
        expiry_date2 > now2,
    ensures
        ({
            let m1 = create_outcome(m, user, now, batch_id, crop_type, origin_hash, expiry_date).0;
            create_outcome(m1, user2, now2, batch_id2, crop_type2, origin_hash2, expiry_date2) == (
            m1,
            Err::<BatchCreated, TracerootsError>(TracerootsError::DuplicateBatch),
            )
        }),
{
}

/// An identifier longer than the cap is refused with `BatchIdTooLong`, and
/// nothing is written.
pub proof fn lemma_long_batch_id_rejected(
    m: Map<Seq<u8>, BatchData>,
    user: Pubkey,
    now: i64,
    batch_id: String,
    crop_type: String,
    origin_hash: [u8; 32],
    expiry_date: i64,
)
    requires
        byte_len(&batch_id) > MAX_FIELD_LEN,
    ensures
        create_outcome(m, user, now, batch_id, crop_type, origin_hash, expiry_date) == (
        m,
        Err::<BatchCreated, TracerootsError>(TracerootsError::BatchIdTooLong),
        ),
{
}

/// With an identifier within the cap, a crop type longer than the cap is
/// refused with `CropTypeTooLong`, and nothing is written.
pub proof fn lemma_long_crop_type_rejected(
    m: Map<Seq<u8>, BatchData>,
    user: Pubkey,
    now: i64,
    batch_id: String,
    crop_type: String,
    origin_hash: [u8; 32],
    expiry_date: i64,
)
    requires
        byte_len(&batch_id) <= MAX_FIELD_LEN,
        byte_len(&crop_type) > MAX_FIELD_LEN,
    ensures
        create_outcome(m, user, now, batch_id, crop_type, origin_hash, expiry_date) == (
        m,
        Err::<BatchCreated, TracerootsError>(TracerootsError::CropTypeTooLong),
        ),
{
}

/// With both strings within the cap, an expiry date that is not after the
/// current time is refused with `InvalidExpiry`, and nothing is written.
pub proof fn lemma_past_expiry_rejected(
    m: Map<Seq<u8>, BatchData>,
    user: Pubkey,
    now: i64,
    batch_id: String,
    crop_type: String,
    origin_hash: [u8; 32],
    expiry_date: i64,
)
    requires
        byte_len(&batch_id) <= MAX_FIELD_LEN,
        byte_len(&crop_type) <= MAX_FIELD_LEN,
        expiry_date <= now,
    ensures
        create_outcome(m, user, now, batch_id, crop_type, origin_hash, expiry_date) == (
        m,
        Err::<BatchCreated, TracerootsError>(TracerootsError::InvalidExpiry),
        ),
{
}

/// Equal identifiers have equal addresses, and a lookup by any identifier
/// equal to the one created finds the slot that creation wrote.
pub proof fn lemma_address_is_shared(
    m: Map<Seq<u8>, BatchData>,
    user: Pubkey,
    now: i64,
    batch_id: String,
    crop_type: String,
    origin_hash: [u8; 32],
    expiry_date: i64,
    query: Seq<char>,
)
    requires
        create_outcome(m, user, now, batch_id, crop_type, origin_hash, expiry_date).1 is Ok,
        query == batch_id@,
    ensures
        address_of(query) == address_of(batch_id@),
        create_outcome(m, user, now, batch_id, crop_type, origin_hash, expiry_date).0.contains_key(
            address_of(query),
        ),
{
}

/// After a creation, the record read back carries a timestamp no later than
/// any time at or after the creation, and the creating caller as authority.
pub proof fn lemma_provenance_is_stamped(
    m: Map<Seq<u8>, BatchData>,
    user: Pubkey,
    now: i64,
    batch_id: String,
    crop_type: String,
    origin_hash: [u8; 32],
    expiry_date: i64,
    read_time: i64,
)
    requires
        create_outcome(m, user, now, batch_id, crop_type, origin_hash, expiry_date).1 is Ok,
        now <= read_time,
    ensures
        ({
            let m1 = create_outcome(m, user, now, batch_id, crop_type, origin_hash, expiry_date).0;
            &&& lookup(m1, batch_id@) is Ok
            &&& lookup(m1, batch_id@)->Ok_0.timestamp <= read_time
            &&& lookup(m1, batch_id@)->Ok_0.authority == user
        }),
{
}

/// The record read back after a creation holds exactly the fields written.
pub proof fn lemma_round_trip(
    m: Map<Seq<u8>, BatchData>,
    user: Pubkey,
    now: i64,
    batch_id: String,
    crop_type: String,
    origin_hash: [u8; 32],
    expiry_date: i64,
)
    requires
        create_outcome(m, user, now, batch_id, crop_type, origin_hash, expiry_date).1 is Ok,
    ensures
        ({
            let m1 = create_outcome(m, user, now, batch_id, crop_type, origin_hash, expiry_date).0;
            &&& lookup(m1, batch_id@) == Ok::<BatchData, TracerootsError>(
                new_record(user, now, batch_id, crop_type, origin_hash, expiry_date),
            )
            &&& lookup(m1, batch_id@)->Ok_0.batch_id == batch_id
            &&& lookup(m1, batch_id@)->Ok_0.crop_type == crop_type
            &&& lookup(m1, batch_id@)->Ok_0.origin_hash@ == origin_hash@
            &&& lookup(m1, batch_id@)->Ok_0.expiry_date == expiry_date
            &&& lookup(m1, batch_id@)->Ok_0.timestamp == now
            &&& lookup(m1, batch_id@)->Ok_0.authority == user
        }),
{
}

} // verus!
