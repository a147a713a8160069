//! Sums of integer sequences and the facts about them the contracts use.

use vstd::prelude::*;

verus! {

/// The sum of a sequence of `u64`, as an integer.
pub open spec fn seq_sum(s: Seq<u64>) -> int
    decreases s.len(),
{
    if s.len() == 0 {
        0
    } else {
        seq_sum(s.drop_last()) + s.last()
    }
}

/// Summing one more element adds it.
pub proof fn lemma_seq_sum_take_step(s: Seq<u64>, i: int)
    requires
        0 <= i < s.len(),
    ensures
        seq_sum(s.take(i + 1)) == seq_sum(s.take(i)) + s[i],
{
    assert(s.take(i + 1).drop_last() =~= s.take(i));
}

/// A prefix sums to no more than the whole sequence.
pub proof fn lemma_seq_sum_prefix_le(s: Seq<u64>, i: int)
    requires
        0 <= i <= s.len(),
    ensures
        0 <= seq_sum(s.take(i)) <= seq_sum(s),
    decreases s.len() - i,
{
    if i == s.len() {
        assert(s.take(i) =~= s);
        lemma_seq_sum_nonneg(s);
    } else {
        lemma_seq_sum_take_step(s, i);
        lemma_seq_sum_prefix_le(s, i + 1);
        lemma_seq_sum_nonneg(s.take(i));
    }
}

/// Sums of unsigned values are non-negative.
pub proof fn lemma_seq_sum_nonneg(s: Seq<u64>)
    ensures
        seq_sum(s) >= 0,
    decreases s.len(),
{
    if s.len() > 0 {
        lemma_seq_sum_nonneg(s.drop_last());
    }
}

/// Each element is bounded by the sum.
pub proof fn lemma_seq_sum_elem_le(s: Seq<u64>, i: int)
    requires
        0 <= i < s.len(),
    ensures
        s[i] <= seq_sum(s),
{
    lemma_seq_sum_take_step(s, i);
    lemma_seq_sum_prefix_le(s, i + 1);
    lemma_seq_sum_nonneg(s.take(i));
}

/// Sums a slice of `u64`, as `iter().sum()` does when nothing overflows.
pub fn sum_u64(v: &[u64]) -> (r: u64)
    requires
        seq_sum(v@) <= u64::MAX,
    ensures
        r == seq_sum(v@),
{
    let n = v.len();
    let mut total: u64 = 0;
    let mut i: usize = 0;
    while i < n
        invariant
            n == v@.len(),
            i <= n,
            total == seq_sum(v@.take(i as int)),
            seq_sum(v@) <= u64::MAX,
        decreases n - i,
    {
        proof {
            lemma_seq_sum_take_step(v@, i as int);
            lemma_seq_sum_prefix_le(v@, i as int + 1);
        }
        total = total + v[i];
        i = i + 1;
    }
    assert(v@.take(n as int) =~= v@);
    total
}

} // verus!
