//! The store of batch records: one write-once slot per derived address.
use vstd::prelude::*;
use anchor_lang::solana_program::pubkey::Pubkey;
use crate::address::{address_of, derive_address};
use crate::record::{
    byte_len, BatchCreated, BatchData, CreateBatch, GetBatch, TracerootsError, MAX_FIELD_LEN,
};

verus! {

/// One occupied slot: the address it stands at and the record it holds.
pub struct Slot {
    pub address: [u8; 32],
    pub record: BatchData,
}

/// The occupied slots, in the order in which they were written.
pub struct BatchStore {
    slots: Vec<Slot>,
}

/// The contents of a run of slots, as a map from address to record.
pub open spec fn slots_map(s: Seq<Slot>) -> Map<Seq<u8>, BatchData>
    decreases s.len(),
{
    if s.len() == 0 {
        Map::empty()
    } else {
        slots_map(s.drop_last()).insert(s.last().address@, s.last().record)
    }
}

impl View for BatchStore {
    type V = Map<Seq<u8>, BatchData>;

    closed spec fn view(&self) -> Map<Seq<u8>, BatchData> {
        slots_map(self.slots@)
    }
}

/// The record written by a successful creation.
pub open spec fn new_record(
    user: Pubkey,
    now: i64,
    batch_id: String,
    crop_type: String,
    origin_hash: [u8; 32],
    expiry_date: i64,
) -> BatchData {
    BatchData { batch_id, crop_type, origin_hash, expiry_date, timestamp: now, authority: user }
}

/// The notice of a successful creation.
pub open spec fn creation_notice(
    now: i64,
    batch_id: String,
    crop_type: String,
    origin_hash: [u8; 32],
    expiry_date: i64,
) -> BatchCreated {
    BatchCreated { batch_id, crop_type, origin_hash, expiry_date, timestamp: now }
}

/// The contents after a creation attempt on contents `m`, and its result.
/// The checks come in a fixed order and the first that fails is reported;
/// a failed attempt leaves the contents as they were.
pub open spec fn create_outcome(
    m: Map<Seq<u8>, BatchData>,
    user: Pubkey,
    now: i64,
    batch_id: String,
    crop_type: String,
    origin_hash: [u8; 32],
    expiry_date: i64,
) -> (Map<Seq<u8>, BatchData>, Result<BatchCreated, TracerootsError>) {
    if byte_len(&batch_id) > MAX_FIELD_LEN {
        (m, Err(TracerootsError::BatchIdTooLong))
    } else if byte_len(&crop_type) > MAX_FIELD_LEN {
        (m, Err(TracerootsError::CropTypeTooLong))
    } else if expiry_date <= now {
        (m, Err(TracerootsError::InvalidExpiry))
    } else if m.contains_key(address_of(batch_id@)) {
        (m, Err(TracerootsError::DuplicateBatch))
    } else {
        (
            m.insert(
                address_of(batch_id@),
                new_record(user, now, batch_id, crop_type, origin_hash, expiry_date),
            ),
            Ok(creation_notice(now, batch_id, crop_type, origin_hash, expiry_date)),
        )
    }
}

/// The result of reading the record of batch `id` from contents `m`.
pub open spec fn lookup(m: Map<Seq<u8>, BatchData>, id: Seq<char>) -> Result<
    BatchData,
    TracerootsError,
> {
    if m.contains_key(address_of(id)) {
        Ok(m[address_of(id)])
    } else {
        Err(TracerootsError::RecordNotFound)
    }
}

proof fn lemma_slots_map_domain(s: Seq<Slot>, a: Seq<u8>)
    ensures
        slots_map(s).contains_key(a) <==> exists|i: int| 0 <= i < s.len() && s[i].address@ == a,
    decreases s.len(),
{
    if s.len() > 0 {
        lemma_slots_map_domain(s.drop_last(), a);
        if slots_map(s.drop_last()).contains_key(a) {
            let i = choose|i: int| 0 <= i < s.drop_last().len() && s.drop_last()[i].address@ == a;
            assert(s[i].address@ == a);
        }
        if exists|i: int| 0 <= i < s.len() && s[i].address@ == a {
            let i = choose|i: int| 0 <= i < s.len() && s[i].address@ == a;
            if i < s.len() - 1 {
                assert(s.drop_last()[i].address@ == a);
            }
        }
    }
}

proof fn lemma_slots_map_at(s: Seq<Slot>, i: int)
    requires
        0 <= i < s.len(),
        forall|j: int, k: int|
            0 <= j < k < s.len() ==> s[j].address@ != s[k].address@,
    ensures
        slots_map(s).contains_key(s[i].address@),
        slots_map(s)[s[i].address@] == s[i].record,
    decreases s.len(),
{
    if i < s.len() - 1 {
        lemma_slots_map_at(s.drop_last(), i);
        assert(s[i].address@ != s[s.len() - 1].address@);
    }
}

impl BatchStore {
    /// Addresses are distinct, each slot stands at the address of the batch
    /// it holds, and each record is well formed.
    pub closed spec fn wf(&self) -> bool {
        &&& forall|j: int, k: int|
            0 <= j < k < self.slots@.len() ==> self.slots@[j].address@ != self.slots@[k].address@
        &&& forall|j: int|
            0 <= j < self.slots@.len() ==> {
                &&& self.slots@[j].address@ == address_of(self.slots@[j].record.batch_id@)
                &&& self.slots@[j].record.wf()
            }
    }

    /// An empty store.
    pub fn new() -> (r: BatchStore)
        ensures
            r.wf(),
            r@ == Map::<Seq<u8>, BatchData>::empty(),
    {
        BatchStore { slots: Vec::new() }
    }

    /// Every record in a well-formed store is well formed and stands at the
    /// address of its own batch identifier, so one identifier has at most
    /// one record.
    pub proof fn lemma_records_in_place(&self)
        requires
            self.wf(),
        ensures
            forall|a: Seq<u8>|
                #[trigger] self@.contains_key(a) ==> self@[a].wf() && a == address_of(
                    self@[a].batch_id@,
                ),
    {
        assert forall|a: Seq<u8>| #[trigger] self@.contains_key(a) implies self@[a].wf() && a
            == address_of(self@[a].batch_id@) by {
            lemma_slots_map_domain(self.slots@, a);
            let i = choose|i: int| 0 <= i < self.slots@.len() && self.slots@[i].address@ == a;
            lemma_slots_map_at(self.slots@, i);
        }
    }

    /// The index of the slot at `address`, if one is occupied.
    fn find_slot(&self, address: &[u8; 32]) -> (r: Option<usize>)
        ensures
            r matches Some(i) ==> i < self.slots@.len() && self.slots@[i as int].address@
                == address@,
            r is None ==> forall|i: int|
                0 <= i < self.slots@.len() ==> self.slots@[i].address@ != address@,
    {
        let mut i: usize = 0;
        while i < self.slots.len()
            invariant
                i <= self.slots@.len(),
                forall|j: int| 0 <= j < i ==> self.slots@[j].address@ != address@,
            decreases self.slots@.len() - i,
        {
            if same_address(&self.slots[i].address, address) {
                return Some(i);
            }
            i = i + 1;
        }
        None
    }
}

/// Whether two addresses hold the same bytes.
fn same_address(a: &[u8; 32], b: &[u8; 32]) -> (r: bool)
    ensures
        r == (a@ == b@),
{
    let mut i: usize = 0;
    while i < 32
        invariant
            i <= 32,
            a@.len() == 32,
            b@.len() == 32,
            forall|j: int| 0 <= j < i ==> a@[j] == b@[j],
        decreases 32 - i,
    {
        if a[i] != b[i] {
            return false;
        }
        i = i + 1;
    }
    assert(a@ =~= b@);
    true
}

/// Creates the record of batch `batch_id`, stamped with the caller and the
/// time of `ctx`, and returns the notice of its creation. Fails, writing
/// nothing, when the identifier or the crop type is longer than the cap,
/// when the expiry date is not after the current time, or when the batch's
/// address is already occupied, in that order.
pub fn create_batch(
    store: &mut BatchStore,
    ctx: &CreateBatch,
    batch_id: String,
    crop_type: String,
    origin_hash: [u8; 32],
    expiry_date: i64,
) -> (r: Result<BatchCreated, TracerootsError>)
    requires
        old(store).wf(),
    ensures
        final(store).wf(),
        final(store)@ == create_outcome(
            old(store)@,
            ctx.user,
            ctx.unix_timestamp,
            batch_id,
            crop_type,
            origin_hash,
            expiry_date,
        ).0,
        r == create_outcome(
            old(store)@,
            ctx.user,
            ctx.unix_timestamp,
            batch_id,
            crop_type,
            origin_hash,
            expiry_date,
        ).1,
{
    if batch_id.as_str().as_bytes().len() > MAX_FIELD_LEN {
        return Err(TracerootsError::BatchIdTooLong);
    }
    if crop_type.as_str().as_bytes().len() > MAX_FIELD_LEN {
        return Err(TracerootsError::CropTypeTooLong);
    }
    if expiry_date <= ctx.unix_timestamp {
        return Err(TracerootsError::InvalidExpiry);
    }
    let address = derive_address(batch_id.as_str());
    if store.find_slot(&address).is_some() {
        proof {
            lemma_slots_map_domain(store.slots@, address@);
        }
        return Err(TracerootsError::DuplicateBatch);
    }
    proof {
        lemma_slots_map_domain(store.slots@, address@);
    }
    let notice = BatchCreated {
        batch_id: batch_id.clone(),
        crop_type: crop_type.clone(),
        origin_hash,
        expiry_date,
        timestamp: ctx.unix_timestamp,
    };
    let record = BatchData {
        batch_id,
        crop_type,
        origin_hash,
        expiry_date,
        timestamp: ctx.unix_timestamp,
        authority: ctx.user,
    };
    store.slots.push(Slot { address, record });
    proof {
        assert(store.slots@.drop_last() =~= old(store).slots@);
    }
    Ok(notice)
}

/// Reads the record of batch `ctx.batch_id`, from the address that creation
/// wrote it at. Fails when no record was ever created for that identifier.
pub fn get_batch(store: &BatchStore, ctx: &GetBatch) -> (r: Result<BatchData, TracerootsError>)
    requires
        store.wf(),
    ensures
        r == lookup(store@, ctx.batch_id@),
{
    let address = derive_address(ctx.batch_id.as_str());
    proof {
        lemma_slots_map_domain(store.slots@, address@);
    }
    match store.find_slot(&address) {
        Some(i) => {
            proof {
                lemma_slots_map_at(store.slots@, i as int);
            }
            let found = &store.slots[i].record;
            Ok(
                BatchData {
                    batch_id: found.batch_id.clone(),
                    crop_type: found.crop_type.clone(),
                    origin_hash: found.origin_hash,
                    expiry_date: found.expiry_date,
                    timestamp: found.timestamp,
                    authority: found.authority,
                },
            )
        },
        None => Err(TracerootsError::RecordNotFound),
    }
}

} // verus!
