use anchor_lang::prelude::Pubkey;
use traceroots::{
    create_batch, derive_address, get_batch, BatchCreated, BatchStore, CreateBatch, GetBatch,
    TracerootsError, MAX_FIELD_LEN,
};

const NOW: i64 = 1_700_000_000;

fn farmer() -> Pubkey {
    Pubkey::new_from_array([7u8; 32])
}

fn ctx_at(user: Pubkey, now: i64) -> CreateBatch {
    CreateBatch { user, unix_timestamp: now }
}

fn get(store: &BatchStore, id: &str) -> Result<traceroots::BatchData, TracerootsError> {
    get_batch(store, &GetBatch { batch_id: id.to_string() })
}

#[test]
fn scenario_first_creation_emits_notice() {
    let mut store = BatchStore::new();
    let r = create_batch(
        &mut store,
        &ctx_at(farmer(), NOW),
        "BATCH-001".to_string(),
        "Wheat".to_string(),
        [0u8; 32],
        NOW + 86400,
    );
    assert_eq!(
        r,
        Ok(BatchCreated {
            batch_id: "BATCH-001".to_string(),
            crop_type: "Wheat".to_string(),
            origin_hash: [0u8; 32],
            expiry_date: NOW + 86400,
            timestamp: NOW,
        })
    );
}

#[test]
fn scenario_repeat_creation_is_duplicate() {
    let mut store = BatchStore::new();
    let ctx = ctx_at(farmer(), NOW);
    let first = create_batch(&mut store, &ctx, "BATCH-001".to_string(), "Wheat".to_string(), [0u8; 32], NOW + 86400);
    assert!(first.is_ok());
    let second = create_batch(&mut store, &ctx, "BATCH-001".to_string(), "Wheat".to_string(), [0u8; 32], NOW + 86400);
    assert_eq!(second, Err(TracerootsError::DuplicateBatch));
    let other = create_batch(
        &mut store,
        &ctx_at(Pubkey::new_from_array([9u8; 32]), NOW + 5),
        "BATCH-001".to_string(),
        "Barley".to_string(),
        [3u8; 32],
        NOW + 100,
    );
    assert_eq!(other, Err(TracerootsError::DuplicateBatch));
    let kept = get(&store, "BATCH-001").unwrap();
    assert_eq!(kept.crop_type, "Wheat");
    assert_eq!(kept.authority, farmer());
}

#[test]
fn scenario_long_batch_id_rejected() {
    let mut store = BatchStore::new();
    let long_id = "X".repeat(65);
    let r = create_batch(&mut store, &ctx_at(farmer(), NOW), long_id.clone(), "Wheat".to_string(), [0u8; 32], NOW + 1);
    assert_eq!(r, Err(TracerootsError::BatchIdTooLong));
    assert_eq!(get(&store, &long_id), Err(TracerootsError::RecordNotFound));
}

#[test]
fn scenario_past_expiry_rejected() {
    let mut store = BatchStore::new();
    let r = create_batch(&mut store, &ctx_at(farmer(), NOW), "BATCH-002".to_string(), "Corn".to_string(), [0u8; 32], NOW - 1);
    assert_eq!(r, Err(TracerootsError::InvalidExpiry));
    assert_eq!(get(&store, "BATCH-002"), Err(TracerootsError::RecordNotFound));
}

#[test]
fn scenario_never_created_not_found() {
    let store = BatchStore::new();
    assert_eq!(get(&store, "NEVER-CREATED"), Err(TracerootsError::RecordNotFound));
}

#[test]
fn expiry_equal_to_now_rejected() {
    let mut store = BatchStore::new();
    let r = create_batch(&mut store, &ctx_at(farmer(), NOW), "B".to_string(), "Corn".to_string(), [0u8; 32], NOW);
    assert_eq!(r, Err(TracerootsError::InvalidExpiry));
}

#[test]
fn long_crop_type_rejected() {
    let mut store = BatchStore::new();
    let r = create_batch(&mut store, &ctx_at(farmer(), NOW), "BATCH-003".to_string(), "c".repeat(65), [0u8; 32], NOW + 1);
    assert_eq!(r, Err(TracerootsError::CropTypeTooLong));
    assert_eq!(get(&store, "BATCH-003"), Err(TracerootsError::RecordNotFound));
}

#[test]
fn batch_id_checked_before_crop_type_and_expiry() {
    let mut store = BatchStore::new();
    let r = create_batch(&mut store, &ctx_at(farmer(), NOW), "X".repeat(65), "c".repeat(65), [0u8; 32], NOW - 1);
    assert_eq!(r, Err(TracerootsError::BatchIdTooLong));
    let r = create_batch(&mut store, &ctx_at(farmer(), NOW), "ok".to_string(), "c".repeat(65), [0u8; 32], NOW - 1);
    assert_eq!(r, Err(TracerootsError::CropTypeTooLong));
}

#[test]
fn fields_of_exactly_the_cap_accepted() {
    let mut store = BatchStore::new();
    let id = "I".repeat(MAX_FIELD_LEN);
    let crop = "C".repeat(MAX_FIELD_LEN);
    let r = create_batch(&mut store, &ctx_at(farmer(), NOW), id.clone(), crop.clone(), [1u8; 32], NOW + 1);
    assert!(r.is_ok());
    let rec = get(&store, &id).unwrap();
    assert_eq!(rec.batch_id, id);
    assert_eq!(rec.crop_type, crop);
}

#[test]
fn length_is_counted_in_bytes() {
    let mut store = BatchStore::new();
    // 33 two-byte characters: 33 characters, 66 bytes.
    let id = "é".repeat(33);
    let r = create_batch(&mut store, &ctx_at(farmer(), NOW), id, "Wheat".to_string(), [0u8; 32], NOW + 1);
    assert_eq!(r, Err(TracerootsError::BatchIdTooLong));
    let crop = "é".repeat(32);
    let r = create_batch(&mut store, &ctx_at(farmer(), NOW), "B-é".to_string(), crop, [0u8; 32], NOW + 1);
    assert!(r.is_ok());
}

#[test]
fn round_trip_reads_back_every_field() {
    let mut store = BatchStore::new();
    let mut origin = [0u8; 32];
    for (i, b) in origin.iter_mut().enumerate() {
        *b = i as u8 * 3;
    }
    let user = Pubkey::new_from_array([42u8; 32]);
    let r = create_batch(&mut store, &ctx_at(user, NOW), "LOT-77".to_string(), "Rice".to_string(), origin, NOW + 3600);
    assert!(r.is_ok());
    let rec = get(&store, "LOT-77").unwrap();
    assert_eq!(rec.batch_id, "LOT-77");
    assert_eq!(rec.crop_type, "Rice");
    assert_eq!(rec.origin_hash, origin);
    assert_eq!(rec.expiry_date, NOW + 3600);
    assert_eq!(rec.timestamp, NOW);
    assert_eq!(rec.authority, user);
}

#[test]
fn provenance_stamped_from_context() {
    let mut store = BatchStore::new();
    let user = Pubkey::new_from_array([5u8; 32]);
    create_batch(&mut store, &ctx_at(user, NOW), "P-1".to_string(), "Oats".to_string(), [0u8; 32], NOW + 10).unwrap();
    let rec = get(&store, "P-1").unwrap();
    let read_time = NOW + 1;
    assert!(rec.timestamp <= read_time);
    assert_eq!(rec.authority, user);
}

#[test]
fn distinct_ids_each_created_once() {
    let mut store = BatchStore::new();
    for id in ["A", "B", "C"] {
        let r = create_batch(&mut store, &ctx_at(farmer(), NOW), id.to_string(), "Wheat".to_string(), [0u8; 32], NOW + 1);
        assert!(r.is_ok());
    }
    for id in ["A", "B", "C"] {
        assert_eq!(get(&store, id).unwrap().batch_id, id);
        let r = create_batch(&mut store, &ctx_at(farmer(), NOW), id.to_string(), "Corn".to_string(), [0u8; 32], NOW + 1);
        assert_eq!(r, Err(TracerootsError::DuplicateBatch));
    }
}

#[test]
fn address_is_sha256_of_tag_and_id() {
    let expected: [u8; 32] = [
        5, 100, 19, 154, 252, 137, 114, 175, 111, 6, 157, 165, 91, 154, 162, 212, 205, 135, 199,
        110, 144, 67, 122, 250, 13, 220, 188, 70, 220, 9, 247, 250,
    ];
    assert_eq!(derive_address("BATCH-001"), expected);
    let empty: [u8; 32] = [
        75, 178, 78, 252, 150, 65, 175, 197, 222, 209, 202, 119, 234, 187, 110, 47, 207, 6, 45, 33,
        18, 204, 214, 27, 216, 189, 106, 205, 137, 24, 11, 174,
    ];
    assert_eq!(derive_address(""), empty);
}

#[test]
fn address_is_deterministic() {
    let id = "X".repeat(65);
    assert_eq!(derive_address(&id), derive_address(&id.clone()));
    assert_ne!(derive_address("BATCH-001"), derive_address("BATCH-002"));
}

#[test]
fn error_messages() {
    assert_eq!(TracerootsError::BatchIdTooLong.message(), "Batch ID must be 64 characters or less");
    assert_eq!(TracerootsError::InvalidExpiry.message(), "Expiry date must be in the future");
}
