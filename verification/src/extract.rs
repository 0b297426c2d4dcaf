//! What the check reads from the script, the puppet cell and the witness,
//! and what it demands of each, and the final comparison of hashes.

use crate::bytes::{bytes_equal, prefix};
use crate::digest::{ckb_blake2b_256, ckb_hash, PUBKEY_HASH_LEN};
use crate::error::Error;
use vstd::prelude::*;

verus! {

/// The length of the script argument: a type hash.
pub const ARGS_LEN: usize = 32;

/// The length of a recoverable signature.
pub const SIGNATURE_LEN: usize = 65;

/// The bytes of a fixed-size result, or its failure.
pub open spec fn array_result_view<const N: usize>(r: Result<[u8; N], Error>) -> Result<
    Seq<u8>,
    Error,
> {
    match r {
        Ok(bytes) => Ok(bytes@),
        Err(e) => Err(e),
    }
}

/// The ownership argument that script arguments `args` amount to: `args`
/// itself where it holds exactly 32 bytes.
pub open spec fn spec_ownership_argument(args: Seq<u8>) -> Result<Seq<u8>, Error> {
    if args.len() == ARGS_LEN {
        Ok(args)
    } else {
        Err(Error::NoValidArgs)
    }
}

/// The public-key hash that cell data `data` commits to: `data` itself
/// where it holds exactly 20 bytes.
pub open spec fn spec_committed_pubkey_hash(data: Seq<u8>) -> Result<Seq<u8>, Error> {
    if data.len() == PUBKEY_HASH_LEN {
        Ok(data)
    } else {
        Err(Error::WrongPubkeyHashLength)
    }
}

/// The signature that a witness lock field carries: its first 65 bytes,
/// where it holds that many.
pub open spec fn spec_witness_signature(lock: Seq<u8>) -> Result<Seq<u8>, Error> {
    if lock.len() >= SIGNATURE_LEN {
        Ok(lock.take(SIGNATURE_LEN as int))
    } else {
        Err(Error::WitnessLockTooShort)
    }
}

/// Whether a public key with the default hash `digest` is the one that
/// `committed` commits to: the first 20 bytes of the digest are `committed`.
pub open spec fn spec_check_pubkey_hash(digest: Seq<u8>, committed: Seq<u8>) -> Result<(), Error> {
    if digest.take(PUBKEY_HASH_LEN as int) == committed {
        Ok(())
    } else {
        Err(Error::WrongPublicKey)
    }
}

/// Whether `pubkey` is the public key that `committed` commits to.
pub open spec fn spec_verify_pubkey(pubkey: Seq<u8>, committed: Seq<u8>) -> Result<(), Error> {
    spec_check_pubkey_hash(ckb_hash(pubkey), committed)
}

/// Takes the script arguments as the ownership argument. Empty arguments,
/// and arguments of any length but 32, fail with `NoValidArgs`.
pub fn ownership_argument(args: &[u8]) -> (arg: Result<[u8; 32], Error>)
    ensures
        array_result_view(arg) == spec_ownership_argument(args@),
{
    if args.len() != ARGS_LEN {
        return Err(Error::NoValidArgs);
    }
    let arg = prefix::<32>(args);
    assert(args@.take(32) =~= args@);
    Ok(arg)
}

/// Takes the data of the puppet cell as the committed public-key hash.
/// Data of any length but 20 fails with `WrongPubkeyHashLength`.
pub fn committed_pubkey_hash(data: &[u8]) -> (hash: Result<[u8; 20], Error>)
    ensures
        array_result_view(hash) == spec_committed_pubkey_hash(data@),
{
    if data.len() != PUBKEY_HASH_LEN {
        return Err(Error::WrongPubkeyHashLength);
    }
    let hash = prefix::<20>(data);
    assert(data@.take(20) =~= data@);
    Ok(hash)
}

/// Cuts the signature from the lock field of a witness: its first 65
/// bytes. A shorter lock field fails with `WitnessLockTooShort`; nothing
/// is padded.
pub fn witness_signature(lock: &[u8]) -> (signature: Result<[u8; 65], Error>)
    ensures
        array_result_view(signature) == spec_witness_signature(lock@),
{
    if lock.len() < SIGNATURE_LEN {
        return Err(Error::WitnessLockTooShort);
    }
    Ok(prefix::<65>(lock))
}

/// Compares the default hash of a recovered public key with the committed
/// public-key hash: success where the first 20 bytes of `digest` are
/// `committed`, `WrongPublicKey` otherwise.
pub fn check_pubkey_hash(digest: &[u8; 32], committed: &[u8; 20]) -> (checked: Result<(), Error>)
    ensures
        checked == spec_check_pubkey_hash(digest@, committed@),
{
    let head = prefix::<20>(digest.as_slice());
    if bytes_equal(head.as_slice(), committed.as_slice()) {
        Ok(())
    } else {
        Err(Error::WrongPublicKey)
    }
}

/// Hashes a recovered public key and compares the hash with the committed
/// public-key hash: success where they agree, `WrongPublicKey` otherwise.
pub fn verify_pubkey(pubkey: &[u8], committed: &[u8; 20]) -> (verified: Result<(), Error>)
    ensures
        verified == spec_verify_pubkey(pubkey@, committed@),
{
    let digest = ckb_blake2b_256(pubkey);
    check_pubkey_hash(&digest, committed)
}

} // verus!
