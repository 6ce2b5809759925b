//! The 128-bit unique id that a new execution is created with: the Blake2
//! hash of the SCALE encoding of the chain's random seed, the sender, the
//! index of the extrinsic in its block and the block number.
use vstd::prelude::*;
use parity_scale_codec::Encode;
use crate::types::{AccountId, BlockNumber};

verus! {

/// The `n` low bytes of `x`, least significant first.
pub open spec fn le_bytes(x: int, n: nat) -> Seq<u8>
    decreases n,
{
    if n == 0 {
        Seq::empty()
    } else {
        seq![(x % 256) as u8] + le_bytes(x / 256, (n - 1) as nat)
    }
}

/// SCALE encoding of an optional `u32`: a zero byte for `None`, otherwise a
/// one byte followed by the four bytes of the value, little-endian.
pub open spec fn option_u32_encoding(value: Option<u32>) -> Seq<u8> {
    match value {
        None => seq![0u8],
        Some(x) => seq![1u8] + le_bytes(x as int, 4),
    }
}

/// SCALE encoding of the tuple (random seed, sender, extrinsic index, block
/// number): the encodings of the four parts one after the other; the seed
/// is a fixed-size byte array, encoded as its bytes.
pub open spec fn payload_encoding(
    random_seed: Seq<u8>,
    sender: AccountId,
    extrinsic_index: Option<u32>,
    block_number: BlockNumber,
) -> Seq<u8> {
    random_seed + le_bytes(sender as int, 8) + option_u32_encoding(extrinsic_index) + le_bytes(
        block_number as int,
        8,
    )
}

/// What `sp_io::hashing::blake2_128` returns for the given bytes.
pub uninterp spec fn blake2_128_digest(data: Seq<u8>) -> Seq<u8>;

/// The unique id of an execution created from these inputs.
pub open spec fn spec_random_value(
    sender: AccountId,
    random_seed: Seq<u8>,
    extrinsic_index: Option<u32>,
    block_number: BlockNumber,
) -> Seq<u8> {
    blake2_128_digest(payload_encoding(random_seed, sender, extrinsic_index, block_number))
}

/// Calls `parity_scale_codec::Encode::encode` on the tuple
/// `(random_seed, sender, extrinsic_index, block_number)`. Trusted to give
/// the SCALE encoding that the codec documents for these types:
/// little-endian fixed-width integers, a 0 or 1 tag byte before an `Option`,
/// the raw bytes of a byte array, and the parts of a tuple in order.
#[verifier::external_body]
fn encode_payload(
    random_seed: [u8; 32],
    sender: AccountId,
    extrinsic_index: Option<u32>,
    block_number: BlockNumber,
) -> (r: Vec<u8>)
    ensures
        r@ == payload_encoding(random_seed@, sender, extrinsic_index, block_number),
{
    (random_seed, sender, extrinsic_index, block_number).encode()
}

/// Calls `sp_io::hashing::blake2_128`. Trusted to return a digest that
/// depends on the bytes hashed alone, named `blake2_128_digest`; nothing
/// more of the hash is stated.
#[verifier::external_body]
fn blake2_128(data: &[u8]) -> (r: [u8; 16])
    ensures
        r@ == blake2_128_digest(data@),
{
    sp_io::hashing::blake2_128(data)
}

/// The unique id of an execution that `sender` creates: the 128-bit Blake2
/// hash of the SCALE encoding of the chain's random seed, the sender, the
/// index of the extrinsic and the block number.
pub fn random_value(
    sender: AccountId,
    random_seed: [u8; 32],
    extrinsic_index: Option<u32>,
    block_number: BlockNumber,
) -> (r: [u8; 16])
    ensures
        r@ == spec_random_value(sender, random_seed@, extrinsic_index, block_number),
{
    let payload = encode_payload(random_seed, sender, extrinsic_index, block_number);
    blake2_128(payload.as_slice())
}

} // verus!
