//! A write-once store of agricultural batch provenance records.
//!
//! Each record lives at an address derived from its batch identifier, is
//! validated before it is written, and is never changed afterwards.

pub mod address;
pub mod laws;
pub mod record;
pub mod store;

pub use address::derive_address;
pub use record::{BatchCreated, BatchData, CreateBatch, GetBatch, TracerootsError, MAX_FIELD_LEN};
pub use store::{create_batch, get_batch, BatchStore};
