//! Proof hashing and challenge generation, built on the Keccak-256 digest.

use vstd::prelude::*;
use vstd::bytes::{spec_u64_to_le_bytes, u64_to_le_bytes};
use sha3::{Digest, Keccak256};

verus! {

/// The Keccak-256 digest of a byte string. The digest is a pure function of
/// the input bytes, so it is given a name here rather than a definition;
/// the wrapper below states that the real computation returns it.
pub uninterp spec fn keccak256_of(data: Seq<u8>) -> Seq<u8>;

/// Relies on sha3::Keccak256 (through Digest::digest): the 32-byte
/// Keccak-256 digest of the input, a deterministic function of the input
/// bytes alone.
#[verifier::external_body]
fn keccak256(data: &[u8]) -> (r: [u8; 32])
    ensures
        r@ == keccak256_of(data@),
{
    Keccak256::digest(data).into()
}

/// The little-endian byte encoding of a signed 64-bit value is the encoding
/// of its two's-complement bit pattern.
pub open spec fn spec_i64_to_le_bytes(x: i64) -> Seq<u8> {
    spec_u64_to_le_bytes(x as u64)
}

/// The byte string a proof submission hashes: the miner's public identifier,
/// then the round's challenge, then the nonce in little-endian encoding.
pub open spec fn proof_message(authority: Seq<u8>, challenge: Seq<u8>, nonce: u64) -> Seq<u8> {
    authority + challenge + spec_u64_to_le_bytes(nonce)
}

/// The digest a proof submission is scored by.
pub open spec fn spec_proof_hash(authority: Seq<u8>, challenge: Seq<u8>, nonce: u64) -> Seq<u8> {
    keccak256_of(proof_message(authority, challenge, nonce))
}

/// The byte string a new challenge is derived from: the timestamp and the
/// slot, both little-endian.
pub open spec fn challenge_message(timestamp: i64, slot: u64) -> Seq<u8> {
    spec_i64_to_le_bytes(timestamp) + spec_u64_to_le_bytes(slot)
}

/// The digest a round rotation installs as the new challenge.
pub open spec fn spec_challenge(timestamp: i64, slot: u64) -> Seq<u8> {
    keccak256_of(challenge_message(timestamp, slot))
}

/// Hash a proof: Keccak256(authority || challenge || nonce as little-endian
/// bytes). The result is pinned to the inputs, so identical inputs always
/// produce identical output.
pub fn hash_proof(authority: &[u8; 32], challenge: &[u8; 32], nonce: u64) -> (r: [u8; 32])
    ensures
        r@ == spec_proof_hash(authority@, challenge@, nonce),
{
    let mut message: Vec<u8> = Vec::new();
    message.extend_from_slice(authority.as_slice());
    message.extend_from_slice(challenge.as_slice());
    let mut nonce_bytes = u64_to_le_bytes(nonce);
    message.append(&mut nonce_bytes);
    assert(message@ =~= proof_message(authority@, challenge@, nonce));
    keccak256(message.as_slice())
}

/// Derive a new 32-byte challenge from a timestamp and a slot number:
/// Keccak256(timestamp as little-endian bytes || slot as little-endian
/// bytes).
pub fn generate_challenge(timestamp: i64, slot: u64) -> (r: [u8; 32])
    ensures
        r@ == spec_challenge(timestamp, slot),
{
    let raw: u64 = #[verifier::truncate] (timestamp as u64);
    let mut message = u64_to_le_bytes(raw);
    let mut slot_bytes = u64_to_le_bytes(slot);
    message.append(&mut slot_bytes);
    assert(message@ =~= challenge_message(timestamp, slot));
    keccak256(message.as_slice())
}

} // verus!
