//! The memoized evaluator for the partition function p(n), driven by
//! Euler's pentagonal-number recurrence
//! p(n) = sum over k of sign_at(k) * p(n - gpent(k)) for gpent(k) <= n,
//! with p(0) = 1.

use vstd::prelude::*;
use std::collections::HashMap;
use num_bigint::BigInt;
use crate::bignum::{big_add, big_clone, big_from_u64, big_int_of, big_sub};
use crate::sequences::{lemma_gap_le, lemma_gpent_lb};
use crate::sequences::{gpent, sign_at};
use crate::sequences::{AddSub, AddSubCounter, PartitionSequence};

verus! {

broadcast use vstd::std_specs::hash::group_hash_axioms;

/// The tail of the recurrence for p(n) from term index k on: the signed sum
/// of p(n - gpent(j)) over all j >= k whose pentagonal number is at most n.
/// The pentagonal numbers grow without bound and are at least their index,
/// so the sum has finitely many terms, all with index at most n.
pub open spec fn p_term_sum(n: int, k: int) -> int
    decreases n, 0int, n + 1 - k,
{
    if k < 1 || n < k || gpent(k) < 1 || n < gpent(k) {
        0
    } else if sign_at(k) == AddSub::Add {
        p_spec(n - gpent(k)) + p_term_sum(n, k + 1)
    } else {
        p_term_sum(n, k + 1) - p_spec(n - gpent(k))
    }
}

/// The partition function p(n), as Euler's pentagonal-number recurrence
/// defines it: p(0) = 1, and for n >= 1 the alternating signed sum of the
/// earlier values at pentagonal offsets. Zero for negative n.
pub open spec fn p_spec(n: int) -> int
    decreases n, 1int, 0int,
{
    if n < 0 {
        0
    } else if n == 0 {
        1
    } else {
        p_term_sum(n, 1)
    }
}

/// A memo cache is consistent when every stored entry is the value of the
/// partition function at its (non-negative) key.
pub open spec fn cache_wf(m: Map<i64, BigInt>) -> bool {
    forall|k: i64| #[trigger]
        m.contains_key(k) ==> 0 <= k && big_int_of(m[k]) == p_spec(k as int)
}

/// The largest n the evaluator accepts: beyond it the first pentagonal
/// number past n might not fit in an `i64`.
pub open spec fn max_supported_n() -> int {
    (i64::MAX - 1) / 2
}

/// Computes p(n), reusing and extending the memo cache: every value it
/// computes along the way is stored, an already-cached n is answered from
/// the cache alone, and the cache stays consistent throughout.
pub fn calculate_p(cache: &mut HashMap<i64, BigInt>, n: i64) -> (r: BigInt)
    requires
        cache_wf(old(cache)@),
        0 <= n,
        n <= max_supported_n(),
    ensures
        cache_wf(final(cache)@),
        big_int_of(r) == p_spec(n as int),
        final(cache)@.contains_key(n),
        forall|k: i64| old(cache)@.contains_key(k) ==> #[trigger] final(cache)@.contains_key(k),
        old(cache)@.contains_key(n) ==> final(cache)@ == old(cache)@,
    decreases n,
{
    let cached = cache.get(&n);
    match cached {
        Some(result) => big_clone(result),
        None => {
            if n == 0 {
                let one = big_from_u64(1);
                let stored = big_clone(&one);
                cache.insert(n, stored);
                one
            } else {
                let mut pos_neg = AddSubCounter::new();
                let mut ps = PartitionSequence::new();
                let mut calls: Vec<(AddSub, i64)> = Vec::new();

                let mut s = ps.next();
                while s <= n
                    invariant
                        1 <= n <= max_supported_n(),
                        ps.wf(),
                        ps.emitted() == calls@.len() + 1,
                        s == gpent(calls@.len() + 1 as int),
                        pos_neg.phase() == calls@.len() % 4,
                        calls@.len() <= n,
                        forall|j: int| 0 <= j < calls@.len() ==> {
                            &&& (#[trigger] calls@[j]).0 == sign_at(j + 1)
                            &&& calls@[j].1 == gpent(j + 1)
                            &&& 1 <= calls@[j].1 <= n
                        },
                    decreases n - calls@.len(),
                {
                    proof {
                        lemma_gpent_lb(calls@.len() + 1 as int);
                        lemma_gap_le(calls@.len() + 1 as int);
                    }
                    let sg = pos_neg.next();
                    calls.push((sg, s));
                    s = ps.next();
                }

                proof {
                    lemma_gpent_lb(calls@.len() + 1 as int);
                }

                let ghost cache0 = cache@;
                let mut total = big_from_u64(0);
                let mut idx: usize = 0;
                while idx < calls.len()
                    invariant
                        1 <= n <= max_supported_n(),
                        cache_wf(cache@),
                        idx <= calls@.len(),
                        calls@.len() <= n,
                        gpent(calls@.len() + 1 as int) > n,
                        forall|j: int| 0 <= j < calls@.len() ==> {
                            &&& (#[trigger] calls@[j]).0 == sign_at(j + 1)
                            &&& calls@[j].1 == gpent(j + 1)
                            &&& 1 <= calls@[j].1 <= n
                        },
                        big_int_of(total) == p_spec(n as int) - p_term_sum(n as int, idx + 1),
                        forall|k: i64| cache0.contains_key(k) ==> #[trigger] cache@.contains_key(k),
                    decreases calls@.len() - idx,
                {
                    proof {
                        lemma_gpent_lb(idx + 1 as int);
                    }
                    let (sg, g) = calls[idx];
                    let sub = calculate_p(cache, n - g);
                    match sg {
                        AddSub::Add => {
                            total = big_add(&total, &sub);
                        },
                        AddSub::Sub => {
                            total = big_sub(&total, &sub);
                        },
                    }
                    idx = idx + 1;
                }

                let stored = big_clone(&total);
                cache.insert(n, stored);
                total
            }
        },
    }
}

/// Computes p(n) after checking the domain explicitly: `None` exactly when
/// n is negative or beyond the supported range, in which case the cache is
/// left untouched; otherwise the partition number, with the cache extended
/// as by `calculate_p`.
pub fn try_calculate_p(cache: &mut HashMap<i64, BigInt>, n: i64) -> (r: Option<BigInt>)
    requires
        cache_wf(old(cache)@),
    ensures
        cache_wf(final(cache)@),
        r is Some <==> 0 <= n <= max_supported_n(),
        (r matches Some(v) ==> big_int_of(v) == p_spec(n as int)),
        r is None ==> final(cache)@ == old(cache)@,
        forall|k: i64| old(cache)@.contains_key(k) ==> #[trigger] final(cache)@.contains_key(k),
    {
    if n < 0 || n > (i64::MAX - 1) / 2 {
        None
    } else {
        Some(calculate_p(cache, n))
    }
}

} // verus!


