//! Byte totals that progress reports are measured against.

use vstd::prelude::*;

verus! {

/// Sum of `v`.
pub open spec fn sum_u64(v: Seq<u64>) -> int
    decreases v.len(),
{
    if v.len() == 0 {
        0
    } else {
        sum_u64(v.drop_last()) + v.last()
    }
}

pub proof fn lemma_sum_u64_prefix(v: Seq<u64>, i: int)
    requires
        0 <= i <= v.len(),
    ensures
        0 <= sum_u64(v.subrange(0, i)) <= sum_u64(v),
    decreases v.len(),
{
    if v.len() > 0 {
        if i < v.len() {
            lemma_sum_u64_prefix(v.drop_last(), i);
            assert(v.drop_last().subrange(0, i) =~= v.subrange(0, i));
        } else {
            assert(v.subrange(0, i) =~= v);
            lemma_sum_u64_prefix(v.drop_last(), i - 1);
            assert(v.drop_last().subrange(0, i - 1) =~= v.drop_last());
        }
    } else {
        assert(v.subrange(0, i) =~= v);
    }
}

/// The sum of two sequences joined is the sum of their sums.
pub proof fn lemma_sum_u64_concat(a: Seq<u64>, b: Seq<u64>)
    ensures
        sum_u64(a + b) == sum_u64(a) + sum_u64(b),
    decreases b.len(),
{
    if b.len() > 0 {
        lemma_sum_u64_concat(a, b.drop_last());
        assert((a + b).drop_last() =~= a + b.drop_last());
    } else {
        assert(a + b =~= a);
    }
}

/// The sum of `v` when it fits in a `u64`.
pub open spec fn checked_total_spec(v: Seq<u64>) -> Option<u64> {
    if sum_u64(v) <= u64::MAX {
        Some(sum_u64(v) as u64)
    } else {
        None
    }
}

/// Sum of `values`, or `None` when it exceeds a `u64` (where a plain sum
/// would overflow).
pub fn checked_total(sizes: &Vec<u64>) -> (r: Option<u64>)
    ensures
        r == checked_total_spec(sizes@),
{
    let n = sizes.len();
    let mut acc: u64 = 0;
    let mut i: usize = 0;
    while i < n
        invariant
            n == sizes@.len(),
            i <= n,
            acc == sum_u64(sizes@.subrange(0, i as int)),
        decreases n - i,
    {
        let ghost next = sizes@.subrange(0, i + 1);
        assert(next.drop_last() =~= sizes@.subrange(0, i as int));
        match acc.checked_add(sizes[i]) {
            Some(a) => {
                acc = a;
            },
            None => {
                proof {
                    lemma_sum_u64_prefix(sizes@, i + 1);
                }
                return None;
            },
        }
        i += 1;
    }
    assert(sizes@.subrange(0, n as int) =~= sizes@);
    Some(acc)
}

} // verus!
