//! Lookup of records by identity in the keyed stores of the network.

use crate::oracle_types::{OracleProvider, PriceSubmission};
use vstd::prelude::*;
use vstd::set_lib::lemma_len_subset;

verus! {

/// Position of the last occurrence of `key` in `ids`, or -1.
pub open spec fn find_id(ids: Seq<u64>, key: u64) -> int
    decreases ids.len(),
{
    if ids.len() == 0 {
        -1
    } else if ids.last() == key {
        ids.len() - 1
    } else {
        find_id(ids.drop_last(), key)
    }
}

/// Addresses of providers, in roster order.
pub open spec fn oracle_ids(s: Seq<OracleProvider>) -> Seq<u64> {
    s.map_values(|p: OracleProvider| p.address)
}

/// Submitting providers, in submission order.
pub open spec fn submitter_ids(s: Seq<PriceSubmission>) -> Seq<u64> {
    s.map_values(|x: PriceSubmission| x.oracle)
}

/// What `find_id` returns: a matching position, or -1 when there is none.
pub proof fn lemma_find_id(ids: Seq<u64>, key: u64)
    ensures
        -1 <= find_id(ids, key) < ids.len(),
        find_id(ids, key) >= 0 ==> ids[find_id(ids, key)] == key,
        find_id(ids, key) < 0 ==> forall|i: int| 0 <= i < ids.len() ==> ids[i] != key,
    decreases ids.len(),
{
    if ids.len() > 0 {
        lemma_find_id(ids.drop_last(), key);
        if ids.last() != key {
            assert forall|i: int| 0 <= i < ids.len() - 1 implies ids[i] == ids.drop_last()[i] by {}
        }
    }
}

/// Among distinct identities, the position holding `key` is the one found.
pub proof fn lemma_find_id_unique(ids: Seq<u64>, key: u64, i: int)
    requires
        ids.no_duplicates(),
        0 <= i < ids.len(),
        ids[i] == key,
    ensures
        find_id(ids, key) == i,
{
    lemma_find_id(ids, key);
}

/// Distinct identities all drawn from `b` are no more numerous than `b`.
pub proof fn lemma_distinct_within(a: Seq<u64>, b: Seq<u64>)
    requires
        a.no_duplicates(),
        forall|i: int| 0 <= i < a.len() ==> b.contains(#[trigger] a[i]),
    ensures
        a.len() <= b.len(),
{
    a.unique_seq_to_set();
    b.lemma_cardinality_of_set();
    assert(a.to_set().subset_of(b.to_set())) by {
        assert forall|x: u64| a.to_set().contains(x) implies b.to_set().contains(x) by {
            assert(a.contains(x));
            let i = choose|i: int| 0 <= i < a.len() && a[i] == x;
            assert(b.contains(a[i]));
        }
    }
    lemma_len_subset(a.to_set(), b.to_set());
}

/// Position of the provider with `address`.
pub fn position_of_oracle(oracles: &Vec<OracleProvider>, address: u64) -> (r: Option<usize>)
    requires
        oracle_ids(oracles@).no_duplicates(),
    ensures
        r matches Some(i) ==> i as int == find_id(oracle_ids(oracles@), address) && i
            < oracles@.len(),
        r is None ==> find_id(oracle_ids(oracles@), address) == -1,
{
    let ghost ids = oracle_ids(oracles@);
    let mut i: usize = 0;
    while i < oracles.len()
        invariant
            ids == oracle_ids(oracles@),
            ids.no_duplicates(),
            i <= oracles@.len(),
            forall|j: int| 0 <= j < i ==> ids[j] != address,
        decreases oracles@.len() - i,
    {
        if oracles[i].address == address {
            proof {
                lemma_find_id_unique(ids, address, i as int);
            }
            return Some(i);
        }
        i = i + 1;
    }
    proof {
        lemma_find_id(ids, address);
        if find_id(ids, address) >= 0 {
            assert(ids[find_id(ids, address)] == address);
        }
    }
    None
}

/// Position of the submission made by `address`.
pub fn position_of_submitter(subs: &Vec<PriceSubmission>, address: u64) -> (r: Option<usize>)
    requires
        submitter_ids(subs@).no_duplicates(),
    ensures
        r matches Some(i) ==> i as int == find_id(submitter_ids(subs@), address) && i
            < subs@.len(),
        r is None ==> find_id(submitter_ids(subs@), address) == -1,
{
    let ghost ids = submitter_ids(subs@);
    let mut i: usize = 0;
    while i < subs.len()
        invariant
            ids == submitter_ids(subs@),
            ids.no_duplicates(),
            i <= subs@.len(),
            forall|j: int| 0 <= j < i ==> ids[j] != address,
        decreases subs@.len() - i,
    {
        if subs[i].oracle == address {
            proof {
                lemma_find_id_unique(ids, address, i as int);
            }
            return Some(i);
        }
        i = i + 1;
    }
    proof {
        lemma_find_id(ids, address);
        if find_id(ids, address) >= 0 {
            assert(ids[find_id(ids, address)] == address);
        }
    }
    None
}

} // verus!
