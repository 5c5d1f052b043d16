use vstd::prelude::*;

verus! {

/// The keccak-256 digest of a byte sequence, as a name: the digest itself is
/// computed by the outside hashing crate and depends on the input bytes alone.
pub uninterp spec fn keccak_of(data: Seq<u8>) -> Seq<u8>;

/// Relies on sp_crypto_hashing::keccak_256: the 32-byte keccak digest of the
/// input, a pure function of the bytes.
#[verifier::external_body]
pub(crate) fn keccak256(data: &[u8]) -> (r: [u8; 32])
    ensures
        r@ == keccak_of(data@),
{
    sp_crypto_hashing::keccak_256(data)
}

/// Digest determinism: identical blob bytes always yield identical digests.
pub proof fn lemma_digest_deterministic(b1: Seq<u8>, b2: Seq<u8>)
    requires
        b1 == b2,
    ensures
        keccak_of(b1) == keccak_of(b2),
{
}

} // verus!
