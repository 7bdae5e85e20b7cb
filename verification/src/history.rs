//! The append-only claim history kept per schedule: one record for every
//! successful claim, and the fact that the records always account for the
//! claimed balance exactly.

use vstd::prelude::*;

verus! {

/// One successful claim: the amount paid out and when.
#[derive(Clone, Copy, Debug, PartialEq, Eq, Structural)]
pub struct ClaimRecord {
    pub amount: i128,
    pub timestamp: u64,
}

/// Total amount a claim history records, oldest to newest.
pub open spec fn spec_history_total(h: Seq<ClaimRecord>) -> int
    decreases h.len(),
{
    if h.len() == 0 {
        0
    } else {
        spec_history_total(h.drop_last()) + h.last().amount
    }
}

/// Appending one record grows the recorded total by exactly its amount.
pub proof fn lemma_history_total_push(h: Seq<ClaimRecord>, r: ClaimRecord)
    ensures
        spec_history_total(h.push(r)) == spec_history_total(h) + r.amount,
{
    assert(h.push(r).drop_last() =~= h);
    assert(h.push(r).last() == r);
}

} // verus!
