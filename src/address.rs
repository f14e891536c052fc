//! Derivation of the storage address of a batch from its identifier.
use vstd::prelude::*;
use vstd::utf8::encode_utf8;

verus! {

/// The SHA-256 digest of a byte sequence.
pub uninterp spec fn sha256_of(data: Seq<u8>) -> Seq<u8>;

/// The namespace tag that separates batch addresses from any other digest:
/// the bytes of `"batch"`.
pub open spec fn batch_tag() -> Seq<u8> {
    seq![98u8, 97u8, 116u8, 99u8, 104u8]
}

/// The address of the slot that holds the batch with identifier `id`:
/// the digest of the tag followed by the UTF-8 bytes of the identifier.
pub open spec fn address_of(id: Seq<char>) -> Seq<u8> {
    sha256_of(batch_tag() + encode_utf8(id))
}

/// Relies on solana_program::hash::hashv, which feeds each slice in turn to
/// one SHA-256 hasher: the digest of the two slices one after the other.
#[verifier::external_body]
fn sha256_concat(first: &[u8], second: &[u8]) -> (r: [u8; 32])
    ensures
        r@ == sha256_of(first@ + second@),
{
    anchor_lang::solana_program::hash::hashv(&[first, second]).to_bytes()
}

/// Derives the address of the slot for `batch_id`. Equal identifiers give
/// equal addresses: creation and lookup go through this one function.
pub fn derive_address(batch_id: &str) -> (r: [u8; 32])
    ensures
        r@ == address_of(batch_id@),
{
    let tag: [u8; 5] = [98, 97, 116, 99, 104];
    assert(tag@ =~= batch_tag());
    sha256_concat(tag.as_slice(), batch_id.as_bytes())
}

} // verus!
