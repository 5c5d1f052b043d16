use vstd::prelude::*;

use crate::blob;
use crate::hashing;

verus! {

/// The unit the submitter consumes: a blob, its keccak-256 hash, and the
/// opaque commitment bytes the outside builder produced for it. Created by
/// the batch preparer, consumed exactly once by the submitter.
pub struct PreparedItem {
    pub blob: Vec<u8>,
    pub blob_hash: [u8; 32],
    pub commitments: Vec<u8>,
}

impl PreparedItem {
    /// A well-formed item carries the digest of its own blob bytes.
    pub open spec fn wf(self) -> bool {
        self.blob_hash@ == hashing::keccak_of(self.blob@)
    }
}

/// Assembles one prepared item from a blob and the commitment bytes the
/// outside builder produced for it, computing the blob's digest here.
pub fn prepare_item(blob: Vec<u8>, commitments: Vec<u8>) -> (item: PreparedItem)
    ensures
        item.blob@ == blob@,
        item.commitments@ == commitments@,
        item.wf(),
{
    let blob_hash = hashing::keccak256(blob.as_slice());
    PreparedItem { blob, blob_hash, commitments }
}

/// Synthetic-mode acquisition for a whole batch: item `i` gets a blob of
/// `base_len` shrunk by `i` (clamped at zero) copies of `byte`, paired with
/// its keccak-256 digest. The result is index-ordered and has exactly
/// `count` entries.
pub fn synthesize_batch(byte: u8, base_len: usize, count: usize) -> (r: Vec<(Vec<u8>, [u8; 32])>)
    ensures
        r@.len() == count,
        forall|i: int|
            0 <= i < count ==> (#[trigger] r@[i]).0@ == Seq::new(
                blob::shrunk_len(base_len as nat, i as nat),
                |j: int| byte,
            ),
        forall|i: int| 0 <= i < count ==> (#[trigger] r@[i]).1@ == hashing::keccak_of(r@[i].0@),
{
    let mut r: Vec<(Vec<u8>, [u8; 32])> = Vec::new();
    let mut i: usize = 0;
    while i < count
        invariant
            i <= count,
            r@.len() == i,
            forall|k: int|
                0 <= k < i ==> (#[trigger] r@[k]).0@ == Seq::new(
                    blob::shrunk_len(base_len as nat, k as nat),
                    |j: int| byte,
                ),
            forall|k: int| 0 <= k < i ==> (#[trigger] r@[k]).1@ == hashing::keccak_of(r@[k].0@),
        decreases count - i,
    {
        let this_len = blob::synthetic_len(base_len, i);
        let b = blob::synthesize(byte, this_len);
        let h = hashing::keccak256(b.as_slice());
        r.push((b, h));
        i = i + 1;
    }
    r
}

/// Pairs each (blob, hash) with the commitment bytes built for it, in index
/// order: entry `i` of the result is made of entry `i` of each input, so the
/// batch keeps preparation order end-to-end.
pub fn attach_commitments(items: Vec<(Vec<u8>, [u8; 32])>, commitments: Vec<Vec<u8>>) -> (r: Vec<
    PreparedItem,
>)
    requires
        items@.len() == commitments@.len(),
    ensures
        r@.len() == items@.len(),
        forall|i: int|
            0 <= i < items@.len() ==> {
                &&& (#[trigger] r@[i]).blob@ == items@[i].0@
                &&& r@[i].blob_hash@ == items@[i].1@
                &&& r@[i].commitments@ == commitments@[i]@
            },
{
    let ghost items_snap = items@;
    let ghost comm_snap = commitments@;
    let mut items = items;
    let mut commitments = commitments;
    let mut r: Vec<PreparedItem> = Vec::new();
    let count = items.len();
    let mut i: usize = 0;
    while i < count
        invariant
            i <= count,
            count == items_snap.len(),
            comm_snap.len() == items_snap.len(),
            items@ == items_snap.skip(i as int),
            commitments@ == comm_snap.skip(i as int),
            r@.len() == i,
            forall|k: int|
                0 <= k < i ==> {
                    &&& (#[trigger] r@[k]).blob@ == items_snap[k].0@
                    &&& r@[k].blob_hash@ == items_snap[k].1@
                    &&& r@[k].commitments@ == comm_snap[k]@
                },
        decreases count - i,
    {
        let (b, h) = items.remove(0);
        let c = commitments.remove(0);
        r.push(PreparedItem { blob: b, blob_hash: h, commitments: c });
        i = i + 1;
        assert(items@ =~= items_snap.skip(i as int));
        assert(commitments@ =~= comm_snap.skip(i as int));
    }
    r
}

} // verus!
