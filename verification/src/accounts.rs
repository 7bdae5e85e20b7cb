//! Helpers for the account-id lists the bookkeeping layers keep: DAO member
//! rosters and treasury signer sets.

use vstd::prelude::*;

verus! {

/// The list with every occurrence of `account` removed, order otherwise kept.
pub open spec fn spec_remove_account(s: Seq<u64>, account: u64) -> Seq<u64>
    decreases s.len(),
{
    if s.len() == 0 {
        Seq::empty()
    } else if s.last() == account {
        spec_remove_account(s.drop_last(), account)
    } else {
        spec_remove_account(s.drop_last(), account).push(s.last())
    }
}

/// Removing occurrences never lengthens a list.
pub proof fn lemma_remove_account_len(s: Seq<u64>, account: u64)
    ensures
        spec_remove_account(s, account).len() <= s.len(),
    decreases s.len(),
{
    if s.len() > 0 {
        lemma_remove_account_len(s.drop_last(), account);
    }
}

/// Whether `account` occurs in the list.
pub fn contains_account(v: &Vec<u64>, account: u64) -> (r: bool)
    ensures
        r == v@.contains(account),
{
    let n = v.len();
    for i in 0..n
        invariant
            n == v@.len(),
            forall|j: int| 0 <= j < i ==> v@[j] != account,
    {
        if v[i] == account {
            return true;
        }
    }
    assert(!v@.contains(account));
    false
}

/// A fresh list with the same accounts in the same order.
pub fn copy_accounts(v: &Vec<u64>) -> (r: Vec<u64>)
    ensures
        r@ == v@,
{
    let mut out: Vec<u64> = Vec::new();
    let n = v.len();
    for i in 0..n
        invariant
            n == v@.len(),
            out@ == v@.take(i as int),
    {
        out.push(v[i]);
        proof {
            assert(v@.take(i + 1) =~= v@.take(i as int).push(v@[i as int]));
        }
    }
    proof {
        assert(v@.take(n as int) =~= v@);
    }
    out
}

/// A fresh list with every occurrence of `account` removed.
pub fn remove_account(v: &Vec<u64>, account: u64) -> (r: Vec<u64>)
    ensures
        r@ == spec_remove_account(v@, account),
    {
    let mut out: Vec<u64> = Vec::new();
    let n = v.len();
    for i in 0..n
        invariant
            n == v@.len(),
            out@ == spec_remove_account(v@.take(i as int), account),
    {
        proof {
            assert(v@.take(i + 1).drop_last() =~= v@.take(i as int));
            assert(v@.take(i + 1).last() == v@[i as int]);
        }
        if v[i] != account {
            out.push(v[i]);
        }
    }
    proof {
        assert(v@.take(n as int) =~= v@);
    }
    out
}

} // verus!
