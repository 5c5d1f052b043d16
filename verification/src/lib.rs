//! Load generation for a data-availability network: deterministic blob
//! synthesis, reference-chain payload sampling, commitment record
//! preparation, and strictly sequenced, independently fallible submission
//! planning. The node client and the KZG commitment builder are outside
//! collaborators: the first is driven by the surrounding binary, the second
//! is consumed as a black box whose output passes through unchanged.

use vstd::prelude::*;

pub mod blob;
pub mod config;
pub mod hashing;
pub mod prepare;
pub mod sampler;
pub mod submit;

verus! {

/// Default grid rows handed to the outside commitment builder.
pub const DEFAULT_ROWS: usize = 1024;

/// Default grid columns handed to the outside commitment builder.
pub const DEFAULT_COLS: usize = 4096;

/// Builds a blob filled with `byte` (length `len_bytes`) together with its
/// keccak-256 hash, and attaches the commitment bytes that the outside
/// commitment builder produced for exactly that blob content. The commitment
/// construction is an opaque cryptographic primitive consumed as a black box;
/// this function passes its output through unchanged.
pub fn build_blob_and_commitments(byte: u8, len_bytes: usize, commitments: Vec<u8>) -> (r: (
    Vec<u8>,
    [u8; 32],
    Vec<u8>,
))
    ensures
        r.0@ == Seq::new(len_bytes as nat, |i: int| byte),
        r.1@ == hashing::keccak_of(r.0@),
        r.2@ == commitments@,
{
    let blob = blob::synthesize(byte, len_bytes);
    let blob_hash = hashing::keccak256(blob.as_slice());
    (blob, blob_hash, commitments)
}

/// Computes the keccak-256 hash of `blob` and pairs it with the commitment
/// bytes that the outside commitment builder produced for that blob.
pub fn build_commitments(blob: &Vec<u8>, commitments: Vec<u8>) -> (r: ([u8; 32], Vec<u8>))
    ensures
        r.0@ == hashing::keccak_of(blob@),
        r.1@ == commitments@,
{
    let blob_hash = hashing::keccak256(blob.as_slice());
    (blob_hash, commitments)
}

} // verus!
