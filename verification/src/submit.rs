use vstd::prelude::*;

verus! {

/// The routing tag of the item at batch index `i`: round-robin over the
/// lanes, a pure function of the index, independent of acquisition mode.
pub fn routing_tag(i: usize) -> (r: u32)
    ensures
        r == i as int % 5,
{
    (i % 5) as u32
}

/// The sequencing plan for a batch: entry `i` carries the nonce
/// `start + i` and the routing tag `i mod 5`.
pub open spec fn plan_spec(start: u32, count: nat) -> Seq<(u32, u32)> {
    Seq::new(count, |i: int| ((start + i) as u32, (i % 5) as u32))
}

/// Builds the sequencing plan for a batch of `count` items whose first
/// nonce is `start`: entry `i` is `(start + i, i mod 5)`, in index order.
pub fn submission_plan(start: u32, count: usize) -> (plan: Vec<(u32, u32)>)
    requires
        start + count <= u32::MAX + 1,
    ensures
        plan@ == plan_spec(start, count as nat),
{
    let mut plan: Vec<(u32, u32)> = Vec::new();
    let mut i: usize = 0;
    while i < count
        invariant
            i <= count,
            start + count <= u32::MAX + 1,
            plan@ == plan_spec(start, i as nat),
        decreases count - i,
    {
        let nonce = start + (i as u32);
        let tag = (i % 5) as u32;
        plan.push((nonce, tag));
        i = i + 1;
        assert(plan@ =~= plan_spec(start, i as nat));
    }
    plan
}

/// Nonce sequencing law: across a batch of `count` items, the nonces of the
/// plan are exactly `start, start + 1, ..., start + count - 1` — a
/// contiguous ascending run with no repeats and no gaps — and the routing
/// tag of entry `i` is `i mod 5`, whatever the acquisition mode and however
/// many individual submissions fail.
pub proof fn lemma_plan_sequencing(start: u32, count: nat)
    requires
        start + count <= u32::MAX + 1,
    ensures
        plan_spec(start, count).len() == count,
        forall|i: int| 0 <= i < count ==> (#[trigger] plan_spec(start, count)[i]).0 == start + i,
        forall|i: int| 0 <= i < count ==> (#[trigger] plan_spec(start, count)[i]).1 == i % 5,
        forall|i: int, j: int|
            0 <= i < count && 0 <= j < count && i != j ==> (#[trigger] plan_spec(start, count)[i]).0
                != (#[trigger] plan_spec(start, count)[j]).0,
{
}

/// The recorded outcome of one submission attempt: accepted by the node, or
/// failed with the node's reason. A failure never aborts the batch.
pub enum SubmitOutcome {
    Accepted,
    Failed(String),
}

impl SubmitOutcome {
    /// Whether this outcome counts as a success.
    pub open spec fn is_accepted(self) -> bool {
        self matches SubmitOutcome::Accepted
    }
}

/// How many outcomes of the sequence are successes.
pub open spec fn count_accepted(s: Seq<SubmitOutcome>) -> nat
    decreases s.len(),
{
    if s.len() == 0 {
        0
    } else {
        count_accepted(s.drop_last()) + if s.last().is_accepted() {
            1nat
        } else {
            0nat
        }
    }
}

/// Summarizes a completed batch: how many submissions succeeded, how many
/// failed, and the nonce the account stands at afterwards. Every attempt
/// consumes a nonce, so the final nonce is `start + len` whatever the
/// outcomes were.
pub fn run_summary(start: u32, outcomes: &Vec<SubmitOutcome>) -> (r: (usize, usize, u32))
    requires
        start + outcomes@.len() <= u32::MAX,
    ensures
        r.0 == count_accepted(outcomes@),
        r.0 + r.1 == outcomes@.len(),
        r.2 == start + outcomes@.len(),
{
    let mut ok: usize = 0;
    let mut i: usize = 0;
    let n = outcomes.len();
    while i < n
        invariant
            i <= n,
            n == outcomes@.len(),
            ok == count_accepted(outcomes@.subrange(0, i as int)),
            ok <= i,
        decreases n - i,
    {
        let accepted = match &outcomes[i] {
            SubmitOutcome::Accepted => true,
            SubmitOutcome::Failed(_) => false,
        };
        if accepted {
            ok = ok + 1;
        }
        i = i + 1;
        assert(outcomes@.subrange(0, i as int).drop_last() =~= outcomes@.subrange(
            0,
            i as int - 1,
        ));
        assert(outcomes@.subrange(0, i as int).last() == outcomes@[i as int - 1]);
    }
    assert(outcomes@.subrange(0, n as int) =~= outcomes@);
    (ok, n - ok, start + (n as u32))
}

/// The account's transaction sequence state: a single counter owned by the
/// run, read once from the chain at startup and advanced by exactly one for
/// every submission attempt, successful or not.
pub struct SequenceState {
    pub nonce: u32,
}

impl SequenceState {
    /// Starts the sequence at the account's on-chain nonce.
    pub fn new(start: u32) -> (s: SequenceState)
        ensures
            s.nonce == start,
    {
        SequenceState { nonce: start }
    }

    /// Hands out the nonce for the next submission attempt and advances the
    /// counter by exactly one; the nonce is considered spent whether or not
    /// the node accepts the submission.
    pub fn advance(&mut self) -> (used: u32)
        requires
            old(self).nonce < u32::MAX,
        ensures
            used == old(self).nonce,
            final(self).nonce == old(self).nonce + 1,
    {
        let used = self.nonce;
        self.nonce = self.nonce + 1;
        used
    }
}

} // verus!
