//! Blake2 hashing of SCALE-encoded values: a room's hash, a timeshare's id
//! and a timeshare's DNA.
use vstd::prelude::*;
use crate::scale::{
    dna_payload_encoding, encode_dna_payload, encode_room, encode_timeshare, room_encoding,
    timeshare_encoding,
};

verus! {

/// The 256-bit Blake2 digest of `data`, as `sp_io::hashing::blake2_256` computes it.
pub uninterp spec fn blake2_256_of(data: Seq<u8>) -> [u8; 32];

/// The 128-bit Blake2 digest of `data`, as `sp_io::hashing::blake2_128` computes it.
pub uninterp spec fn blake2_128_of(data: Seq<u8>) -> [u8; 16];

/// Calls `sp_io::hashing::blake2_256`; the digest is a function of the bytes alone.
#[verifier::external_body]
fn blake2_256(data: &[u8]) -> (r: [u8; 32])
    ensures
        r == blake2_256_of(data@),
{
    sp_io::hashing::blake2_256(data)
}

/// Calls `sp_io::hashing::blake2_128`; the digest is a function of the bytes alone.
#[verifier::external_body]
fn blake2_128(data: &[u8]) -> (r: [u8; 16])
    ensures
        r == blake2_128_of(data@),
{
    sp_io::hashing::blake2_128(data)
}

/// The hash of a room: Blake2-256 of its encoding.
pub open spec fn room_hash_spec(hotel: u64, room_number: Seq<u8>) -> [u8; 32] {
    blake2_256_of(room_encoding(hotel, room_number))
}

/// The hash of a room, which keys the list of the room's timeshares.
pub fn room_hash(hotel: u64, room_number: &Vec<u8>) -> (r: [u8; 32])
    requires
        room_number.len() <= u32::MAX,
    ensures
        r == room_hash_spec(hotel, room_number@),
{
    let bytes = encode_room(hotel, room_number);
    blake2_256(bytes.as_slice())
}

/// The id of a timeshare: Blake2-256 of its encoding.
pub open spec fn timeshare_id_spec(t: crate::types::TimeshareModel) -> [u8; 32] {
    blake2_256_of(
        crate::scale::timeshare_encoding(t.hotel, t.room_number, t.price, t.owner, t.dna, t.room_hash),
    )
}

/// The DNA of a timeshare minted with the random hash `random_hash` in block
/// `block_number`: Blake2-128 of the pair's encoding.
pub open spec fn dna_spec(random_hash: [u8; 32], block_number: u32) -> [u8; 16] {
    blake2_128_of(dna_payload_encoding(random_hash, block_number))
}

impl crate::types::Room {
    /// The hash of this room.
    pub fn hash(&self) -> (r: [u8; 32])
        requires
            self.room_number.len() <= u32::MAX,
        ensures
            r == room_hash_spec(self.hotel, self.room_number@),
    {
        room_hash(self.hotel, &self.room_number)
    }
}

impl crate::types::Timeshare {
    /// The id of this timeshare.
    pub fn id(&self) -> (r: [u8; 32])
        requires
            self.room_number.len() <= u32::MAX,
        ensures
            r == timeshare_id_spec(self@),
    {
        let bytes = encode_timeshare(
            self.hotel,
            &self.room_number,
            self.price,
            self.owner,
            self.dna,
            self.room_hash,
        );
        blake2_256(bytes.as_slice())
    }
}

/// The DNA of a timeshare minted with the random hash `random_hash` in block
/// `block_number`.
pub fn gen_dna(random_hash: [u8; 32], block_number: u32) -> (r: [u8; 16])
    ensures
        r == dna_spec(random_hash, block_number),
{
    let bytes = encode_dna_payload(random_hash, block_number);
    blake2_128(bytes.as_slice())
}

} // verus!
