//! The digest that turns a public key into the hash a puppet cell commits to.

use crate::bytes::prefix;
use blake2b_ref::Blake2bBuilder;
use vstd::prelude::*;

verus! {

/// The most bytes a BLAKE2b personalization can hold.
pub const PERSONALIZATION_MAX: usize = 16;

/// The personalization of the chain's default hash: the ASCII text
/// `ckb-default-hash`.
pub const CKB_HASH_PERSONALIZATION: [u8; 16] = [
    0x63, 0x6b, 0x62, 0x2d, 0x64, 0x65, 0x66, 0x61,
    0x75, 0x6c, 0x74, 0x2d, 0x68, 0x61, 0x73, 0x68,
];

/// The number of leading digest bytes that make up a public-key hash.
pub const PUBKEY_HASH_LEN: usize = 20;

/// The 32-byte BLAKE2b digest of `data`, without key or salt, under the
/// personalization `personal` (padded with zero bytes to 16).
///
/// The digest is computed by the `blake2b_ref` crate and is not defined
/// here: nothing is known of it but that equal arguments give equal digests.
pub uninterp spec fn blake2b_256(personal: Seq<u8>, data: Seq<u8>) -> Seq<u8>;

/// Hashes `data` with `blake2b_ref`: a hasher made by `Blake2bBuilder::new`
/// for a digest of 32 bytes, given `personal` by `Blake2bBuilder::personal`
/// and built by `Blake2bBuilder::build`, is fed `data` by `Blake2b::update`
/// and written out by `Blake2b::finalize`.
///
/// Trusted, not proved: that the bytes written depend on `personal` and
/// `data` alone, so that they are `blake2b_256` of the two. The builder
/// refuses a personalization longer than 16 bytes, which `requires` rules
/// out.
#[verifier::external_body]
fn blake2b_256_digest(personal: &[u8], data: &[u8]) -> (digest: [u8; 32])
    requires
        personal@.len() <= PERSONALIZATION_MAX,
    ensures
        digest@ == blake2b_256(personal@, data@),
{
    let mut digest = [0u8; 32];
    let mut hasher = Blake2bBuilder::new(digest.len()).personal(personal).build();
    hasher.update(data);
    hasher.finalize(&mut digest);
    digest
}

/// The chain's default hash of `data`: BLAKE2b-256 under
/// [`CKB_HASH_PERSONALIZATION`].
pub open spec fn ckb_hash(data: Seq<u8>) -> Seq<u8> {
    blake2b_256(CKB_HASH_PERSONALIZATION@, data)
}

/// The public-key hash of `data`: the first 20 bytes of its default hash.
pub open spec fn spec_blake160(data: Seq<u8>) -> Seq<u8> {
    ckb_hash(data).take(PUBKEY_HASH_LEN as int)
}

/// Computes the chain's default hash of `data`.
pub fn ckb_blake2b_256(data: &[u8]) -> (digest: [u8; 32])
    ensures
        digest@ == ckb_hash(data@),
{
    let personal = CKB_HASH_PERSONALIZATION;
    blake2b_256_digest(personal.as_slice(), data)
}

/// Computes the public-key hash of `data`.
pub fn blake160(data: &[u8]) -> (hash: [u8; 20])
    ensures
        hash@ == spec_blake160(data@),
{
    let digest = ckb_blake2b_256(data);
    prefix::<20>(digest.as_slice())
}

} // verus!
