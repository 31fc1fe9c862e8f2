//! The totals tracker: one byte counter per segment, and their sum.

use vstd::prelude::*;

verus! {

/// The sum of all counters.
pub open spec fn total_of(counters: Seq<u64>) -> nat
    decreases counters.len(),
{
    if counters.len() == 0 {
        0
    } else {
        total_of(counters.drop_last()) + counters.last() as nat
    }
}

/// `n` counters, all zero.
pub open spec fn zeros(n: nat) -> Seq<u64> {
    Seq::new(n, |i: int| 0u64)
}

/// The sum of the first `n` counters never exceeds the sum of all.
pub proof fn lemma_total_prefix(counters: Seq<u64>, n: int)
    requires
        0 <= n <= counters.len(),
    ensures
        total_of(counters.take(n)) <= total_of(counters),
    decreases counters.len(),
{
    if n == counters.len() {
        assert(counters.take(n) =~= counters);
    } else {
        lemma_total_prefix(counters.drop_last(), n);
        assert(counters.drop_last().take(n) =~= counters.take(n));
    }
}

/// Overwriting one counter changes the sum by the difference of the two values.
pub proof fn lemma_total_update(counters: Seq<u64>, index: int, value: u64)
    requires
        0 <= index < counters.len(),
    ensures
        total_of(counters.update(index, value)) == total_of(counters) - counters[index] + value,
    decreases counters.len(),
{
    let updated = counters.update(index, value);
    if index == counters.len() - 1 {
        assert(updated.drop_last() =~= counters.drop_last());
    } else {
        lemma_total_update(counters.drop_last(), index, value);
        assert(updated.drop_last() =~= counters.drop_last().update(index, value));
    }
}

/// Counters that are all zero sum to zero.
pub proof fn lemma_total_zeros(n: nat)
    ensures
        total_of(zeros(n)) == 0,
    decreases n,
{
    if n > 0 {
        lemma_total_zeros((n - 1) as nat);
        assert(zeros(n).drop_last() =~= zeros((n - 1) as nat));
    }
}

/// Adds up the counters. `None` exactly when the sum does not fit in 64 bits.
pub fn checked_total(counters: &Vec<u64>) -> (sum: Option<u64>)
    ensures
        match sum {
            Some(s) => s == total_of(counters@),
            None => total_of(counters@) > u64::MAX,
        },
{
    let mut sum: u64 = 0;
    let mut i: usize = 0;
    while i < counters.len()
        invariant
            i <= counters.len(),
            sum == total_of(counters@.take(i as int)),
        decreases counters.len() - i,
    {
        let next = sum.checked_add(counters[i]);
        proof {
            assert(counters@.take(i + 1).drop_last() =~= counters@.take(i as int));
            lemma_total_prefix(counters@, i + 1);
        }
        match next {
            Some(s) => {
                sum = s;
            },
            None => {
                return None;
            },
        }
        i = i + 1;
    }
    proof {
        assert(counters@.take(i as int) =~= counters@);
    }
    Some(sum)
}

/// Adds up counters whose sum is known to fit in 64 bits.
pub fn total(counters: &Vec<u64>) -> (sum: u64)
    requires
        total_of(counters@) <= u64::MAX,
    ensures
        sum == total_of(counters@),
{
    let mut sum: u64 = 0;
    let mut i: usize = 0;
    while i < counters.len()
        invariant
            i <= counters.len(),
            sum == total_of(counters@.take(i as int)),
            total_of(counters@) <= u64::MAX,
        decreases counters.len() - i,
    {
        proof {
            assert(counters@.take(i + 1).drop_last() =~= counters@.take(i as int));
            lemma_total_prefix(counters@, i + 1);
        }
        sum = sum + counters[i];
        i = i + 1;
    }
    proof {
        assert(counters@.take(i as int) =~= counters@);
    }
    sum
}

} // verus!
