//! The persisted batch record, the creation notice, the call contexts and
//! the errors of the store.
use vstd::prelude::*;
use vstd::utf8::encode_utf8;
use anchor_lang::solana_program::pubkey::Pubkey;

verus! {

/// The runtime's public key, carried through as a record's authority.
#[verifier::external_type_specification]
#[verifier::external_body]
pub struct ExPubkey(Pubkey);

/// The longest batch identifier or crop type accepted, in bytes.
pub const MAX_FIELD_LEN: usize = 64;

/// Length in bytes of the UTF-8 encoding of a string.
pub open spec fn byte_len(s: &String) -> int {
    encode_utf8(s@).len() as int
}

/// A batch's provenance record, as it is stored.
#[derive(Debug, PartialEq, Eq)]
pub struct BatchData {
    pub batch_id: String,
    pub crop_type: String,
    pub origin_hash: [u8; 32],
    pub expiry_date: i64,
    pub timestamp: i64,
    pub authority: Pubkey,
}

impl BatchData {
    /// A stored record keeps both strings within the length cap and expires
    /// strictly after the moment it was written.
    pub open spec fn wf(&self) -> bool {
        &&& byte_len(&self.batch_id) <= MAX_FIELD_LEN
        &&& byte_len(&self.crop_type) <= MAX_FIELD_LEN
        &&& self.timestamp < self.expiry_date
    }
}

/// The notice of a creation: the record without its authority.
#[derive(Debug, Clone, PartialEq, Eq)]
pub struct BatchCreated {
    pub batch_id: String,
    pub crop_type: String,
    pub origin_hash: [u8; 32],
    pub expiry_date: i64,
    pub timestamp: i64,
}

/// What the executing environment vouches for when a batch is created:
/// the authenticated caller and the current time in seconds.
#[derive(Debug, PartialEq, Eq)]
pub struct CreateBatch {
    pub user: Pubkey,
    pub unix_timestamp: i64,
}

/// A read of the record for one batch identifier.
#[derive(Debug, Clone, PartialEq, Eq)]
pub struct GetBatch {
    pub batch_id: String,
}

#[derive(Debug, Clone, Copy, PartialEq, Eq, Structural)]
pub enum TracerootsError {
    /// The batch identifier is longer than the cap.
    BatchIdTooLong,
    /// The crop type is longer than the cap.
    CropTypeTooLong,
    /// The expiry date is not after the current time.
    InvalidExpiry,
    /// A record already occupies the batch's address.
    DuplicateBatch,
    /// No record occupies the batch's address.
    RecordNotFound,
}

impl TracerootsError {
    /// The message shown to a user for this error.
    pub fn message(&self) -> (r: String)
        ensures
            *self == TracerootsError::BatchIdTooLong ==> r@ == "Batch ID must be 64 characters or less"@,
            *self == TracerootsError::CropTypeTooLong ==> r@ == "Crop type must be 64 characters or less"@,
            *self == TracerootsError::InvalidExpiry ==> r@ == "Expiry date must be in the future"@,
            *self == TracerootsError::DuplicateBatch ==> r@ == "A batch with this ID already exists"@,
            *self == TracerootsError::RecordNotFound ==> r@ == "No batch with this ID exists"@,
    {
        match self {
            TracerootsError::BatchIdTooLong => String::from_str("Batch ID must be 64 characters or less"),
            TracerootsError::CropTypeTooLong => String::from_str("Crop type must be 64 characters or less"),
            TracerootsError::InvalidExpiry => String::from_str("Expiry date must be in the future"),
            TracerootsError::DuplicateBatch => String::from_str("A batch with this ID already exists"),
            TracerootsError::RecordNotFound => String::from_str("No batch with this ID exists"),
        }
    }
}

} // verus!
