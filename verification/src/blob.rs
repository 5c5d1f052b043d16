use vstd::prelude::*;

verus! {

/// The length of the synthetic blob at batch index `i`: the base length
/// shrunk by `i`, clamped at zero. Each successive blob of a synthetic batch
/// is one byte shorter than the previous, a deliberate size-diversity policy.
pub open spec fn shrunk_len(base: nat, i: nat) -> nat {
    if i <= base {
        (base - i) as nat
    } else {
        0
    }
}

/// Size diversity law: of two items of a synthetic batch, the later one's
/// blob is strictly shorter, unless its length was clamped at zero.
pub proof fn lemma_size_diversity(base: nat, i: nat, j: nat)
    requires
        i < j,
    ensures
        shrunk_len(base, j) < shrunk_len(base, i) || shrunk_len(base, j) == 0,
{
}

/// Computes the synthetic blob length for batch index `i`.
pub fn synthetic_len(base: usize, i: usize) -> (r: usize)
    ensures
        r == shrunk_len(base as nat, i as nat),
{
    if i <= base {
        base - i
    } else {
        0
    }
}

/// Produces the synthetic filler blob: exactly `len` copies of `byte`.
/// A zero length yields an empty blob.
pub fn synthesize(byte: u8, len: usize) -> (blob: Vec<u8>)
    ensures
        blob@ == Seq::new(len as nat, |i: int| byte),
{
    let mut blob: Vec<u8> = Vec::new();
    let mut i: usize = 0;
    while i < len
        invariant
            i <= len,
            blob@ == Seq::new(i as nat, |j: int| byte),
        decreases len - i,
    {
        blob.push(byte);
        i = i + 1;
        assert(blob@ =~= Seq::new(i as nat, |j: int| byte));
    }
    blob
}

} // verus!
