//! The SCALE encodings of the values that the registry hashes.
//!
//! Fixed-width integers are written little-endian, byte arrays byte by
//! byte, a byte vector as its compact length followed by its bytes, an
//! `Option` as a tag byte followed by the value, and a tuple or a struct as
//! the concatenation of its fields.
use vstd::prelude::*;

verus! {

/// The `n` low-order bytes of `x`, least significant first.
pub open spec fn le_bytes(x: nat, n: nat) -> Seq<u8>
    decreases n,
{
    if n == 0 {
        Seq::empty()
    } else {
        seq![(x % 256) as u8] + le_bytes(x / 256, (n - 1) as nat)
    }
}

/// The compact encoding of a length that fits in a `u32`.
pub open spec fn compact_u32(n: nat) -> Seq<u8> {
    if n < 0x40 {
        le_bytes(n * 4, 1)
    } else if n < 0x4000 {
        le_bytes(n * 4 + 1, 2)
    } else if n < 0x4000_0000 {
        le_bytes(n * 4 + 2, 4)
    } else {
        seq![3u8] + le_bytes(n, 4)
    }
}

/// A byte vector: its compact length, then its bytes.
pub open spec fn bytes_encoding(b: Seq<u8>) -> Seq<u8> {
    compact_u32(b.len()) + b
}

/// An optional balance: `0`, or `1` followed by the balance.
pub open spec fn option_u128_encoding(p: Option<u128>) -> Seq<u8> {
    match p {
        None => seq![0u8],
        Some(v) => seq![1u8] + le_bytes(v as nat, 16),
    }
}

/// A room: its hotel's account, then its room number.
pub open spec fn room_encoding(hotel: u64, room_number: Seq<u8>) -> Seq<u8> {
    le_bytes(hotel as nat, 8) + bytes_encoding(room_number)
}

/// A timeshare, field by field in declaration order.
pub open spec fn timeshare_encoding(
    hotel: u64,
    room_number: Seq<u8>,
    price: Option<u128>,
    owner: u64,
    dna: [u8; 16],
    room_hash: [u8; 32],
) -> Seq<u8> {
    le_bytes(hotel as nat, 8) + bytes_encoding(room_number) + option_u128_encoding(price)
        + le_bytes(owner as nat, 8) + dna@ + room_hash@
}

/// The seed of a timeshare's DNA: a random hash, then a block number.
pub open spec fn dna_payload_encoding(random_hash: [u8; 32], block_number: u32) -> Seq<u8> {
    random_hash@ + le_bytes(block_number as nat, 4)
}

/// Calls `parity_scale_codec::Encode::encode` on the pair `(hotel, room_number)`;
/// the contract states the SCALE encoding of that pair, which codec writes as
/// the little-endian account followed by the compact length and the bytes.
/// Codec panics on a vector longer than `u32::MAX`, which `requires` leaves out.
#[verifier::external_body]
pub(crate) fn encode_room(hotel: u64, room_number: &Vec<u8>) -> (r: Vec<u8>)
    requires
        room_number.len() <= u32::MAX,
    ensures
        r@ == room_encoding(hotel, room_number@),
{
    parity_scale_codec::Encode::encode(&(hotel, room_number))
}

/// Calls `parity_scale_codec::Encode::encode` on the tuple of a timeshare's
/// fields in declaration order; the contract states its SCALE encoding, the
/// concatenation of the fields' encodings. Codec panics on a room number
/// longer than `u32::MAX`, which `requires` leaves out.
#[verifier::external_body]
pub(crate) fn encode_timeshare(
    hotel: u64,
    room_number: &Vec<u8>,
    price: Option<u128>,
    owner: u64,
    dna: [u8; 16],
    room_hash: [u8; 32],
) -> (r: Vec<u8>)
    requires
        room_number.len() <= u32::MAX,
    ensures
        r@ == timeshare_encoding(hotel, room_number@, price, owner, dna, room_hash),
{
    parity_scale_codec::Encode::encode(&(hotel, room_number, price, owner, dna, room_hash))
}

/// Calls `parity_scale_codec::Encode::encode` on the pair
/// `(random_hash, block_number)`; the contract states its SCALE encoding, the
/// hash's bytes followed by the little-endian block number.
#[verifier::external_body]
pub(crate) fn encode_dna_payload(random_hash: [u8; 32], block_number: u32) -> (r: Vec<u8>)
    ensures
        r@ == dna_payload_encoding(random_hash, block_number),
{
    parity_scale_codec::Encode::encode(&(random_hash, block_number))
}

} // verus!
