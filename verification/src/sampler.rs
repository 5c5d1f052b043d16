use vstd::prelude::*;

verus! {

/// Copies the bytes of a payload into a fresh vector.
fn copy_bytes(src: &Vec<u8>) -> (r: Vec<u8>)
    ensures
        r@ == src@,
{
    let mut r: Vec<u8> = Vec::new();
    let mut j: usize = 0;
    while j < src.len()
        invariant
            j <= src@.len(),
            r@ == src@.subrange(0, j as int),
        decreases src@.len() - j,
    {
        r.push(src[j]);
        j = j + 1;
        assert(r@ =~= src@.subrange(0, j as int));
    }
    assert(r@ =~= src@);
    r
}

/// The byte sequences held by a batch of payloads.
pub open spec fn payload_views(batch: Seq<Vec<u8>>) -> Seq<Seq<u8>> {
    batch.map_values(|p: Vec<u8>| p@)
}

/// What one polled batch does to the accumulator of streamed-concatenate
/// acquisition: payloads are appended in order while appending keeps the
/// total strictly under `limit`; the first payload that would meet or exceed
/// the limit is dropped whole (never truncated), the rest of the batch is
/// discarded, and accumulation stops.
pub open spec fn concat_fold(acc: Seq<u8>, batch: Seq<Seq<u8>>, limit: nat) -> (Seq<u8>, bool)
    decreases batch.len(),
{
    if batch.len() == 0 {
        (acc, false)
    } else if acc.len() + batch[0].len() < limit {
        concat_fold(acc + batch[0], batch.skip(1), limit)
    } else {
        (acc, true)
    }
}

/// Streamed-concatenate step: folds one polled batch of payloads into the
/// accumulator exactly as `concat_fold` describes, and reports whether
/// acquisition is finished. A `false` result means the whole batch was
/// appended and another batch must be polled.
pub fn concat_step(acc: &mut Vec<u8>, batch: &Vec<Vec<u8>>, limit: usize) -> (stop: bool)
    ensures
        (final(acc)@, stop) == concat_fold(old(acc)@, payload_views(batch@), limit as nat),
{
    let mut i: usize = 0;
    let n = batch.len();
    let mut stop = false;
    let ghost whole = payload_views(batch@);
    assert(whole.skip(0) =~= whole);
    while i < n && !stop
        invariant
            i <= n,
            n == batch@.len(),
            whole == payload_views(batch@),
            !stop ==> concat_fold(old(acc)@, whole, limit as nat) == concat_fold(
                acc@,
                whole.skip(i as int),
                limit as nat,
            ),
            stop ==> (acc@, true) == concat_fold(old(acc)@, whole, limit as nat),
        decreases n - i,
    {
        let payload = &batch[i];
        if payload.len() < limit && acc.len() < limit - payload.len() {
            let ghost before = acc@;
            let mut j: usize = 0;
            while j < payload.len()
                invariant
                    j <= payload@.len(),
                    acc@ == before + payload@.subrange(0, j as int),
                decreases payload@.len() - j,
            {
                acc.push(payload[j]);
                j = j + 1;
                assert(acc@ =~= before + payload@.subrange(0, j as int));
            }
            assert(acc@ =~= before + whole[i as int]);
            assert(whole.skip(i as int).skip(1) =~= whole.skip(i as int + 1));
        } else {
            assert(acc@.len() + whole.skip(i as int)[0].len() >= limit);
            stop = true;
        }
        i = i + 1;
    }
    if !stop {
        assert(whole.skip(i as int) =~= Seq::<Seq<u8>>::empty());
    }
    stop
}

/// The payloads that streamed-concatenate acquisition appends out of one
/// polled batch: the longest prefix of the batch each of whose payloads
/// still keeps the accumulator strictly under the limit.
pub open spec fn taken_payloads(acc: Seq<u8>, batch: Seq<Seq<u8>>, limit: nat) -> Seq<Seq<u8>>
    decreases batch.len(),
{
    if batch.len() == 0 {
        Seq::empty()
    } else if acc.len() + batch[0].len() < limit {
        seq![batch[0]] + taken_payloads(acc + batch[0], batch.skip(1), limit)
    } else {
        Seq::empty()
    }
}

/// No partial payload law: what one polled batch adds to the accumulator is
/// exactly the concatenation of whole payloads — those taken before the
/// limit would be met — never a truncated one.
pub proof fn lemma_concat_whole_payloads(acc: Seq<u8>, batch: Seq<Seq<u8>>, limit: nat)
    ensures
        concat_fold(acc, batch, limit).0 == acc + taken_payloads(acc, batch, limit).flatten(),
    decreases batch.len(),
{
    if batch.len() == 0 {
        assert(acc + taken_payloads(acc, batch, limit).flatten() =~= acc);
    } else if acc.len() + batch[0].len() < limit {
        lemma_concat_whole_payloads(acc + batch[0], batch.skip(1), limit);
        let rest = taken_payloads(acc + batch[0], batch.skip(1), limit);
        let whole = seq![batch[0]] + rest;
        assert(whole.drop_first() =~= rest);
        assert(whole.flatten() == batch[0] + rest.flatten());
        assert(acc + whole.flatten() =~= (acc + batch[0]) + rest.flatten());
    } else {
        assert(acc + taken_payloads(acc, batch, limit).flatten() =~= acc);
    }
}

/// One streamed-concatenate accumulation never reaches the limit: if the
/// accumulator is strictly under `limit` before a batch is folded in, it is
/// strictly under `limit` after, whatever the batch holds. Appends are of
/// whole payloads only, so the accumulated length is the sum of the payloads
/// taken before the limit would be met.
pub proof fn lemma_concat_bounded(acc: Seq<u8>, batch: Seq<Seq<u8>>, limit: nat)
    requires
        acc.len() < limit,
    ensures
        concat_fold(acc, batch, limit).0.len() < limit,
    decreases batch.len(),
{
    if batch.len() == 0 {
    } else if acc.len() + batch[0].len() < limit {
        lemma_concat_bounded(acc + batch[0], batch.skip(1), limit);
    }
}

/// Single-sample acquisition step: the first payload of a polled batch,
/// taken verbatim as the blob, or nothing when the batch was empty. An
/// empty batch is not an error: the caller simply polls again and waits
/// for a non-empty one.
pub fn single_sample(batch: &Vec<Vec<u8>>) -> (r: Option<Vec<u8>>)
    ensures
        match r {
            Some(b) => batch@.len() > 0 && b@ == batch@[0]@,
            None => batch@.len() == 0,
        },
{
    if batch.len() == 0 {
        None
    } else {
        Some(copy_bytes(&batch[0]))
    }
}

} // verus!
