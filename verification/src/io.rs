//! The allocation workload: many sequences filled with a repeating pattern,
//! and the sum of all their elements.

use vstd::prelude::*;

verus! {

/// A sequence of `n` elements, the element at index `i` being `i % 255`: the
/// elements run 0, 1, ..., 254, 0, 1, ...
pub open spec fn pattern(n: nat) -> Seq<u32> {
    Seq::new(n, |i: int| (i % 255) as u32)
}

/// The sum of the first `n` elements of the pattern.
pub open spec fn pattern_sum(n: nat) -> nat
    decreases n,
{
    if n == 0 {
        0
    } else {
        pattern_sum((n - 1) as nat) + ((n - 1) % 255) as nat
    }
}

/// `pattern_sum` in closed form: every full period adds 32,385, and the
/// `r` elements left over add `r * (r - 1) / 2`. Each element is at most 254.
pub proof fn lemma_pattern_sum(n: nat)
    ensures
        2 * pattern_sum(n) == (n / 255) * 64770 + (n % 255) * (n % 255 - 1),
        pattern_sum(n) <= 254 * n,
    decreases n,
{
    if n > 0 {
        let m = (n - 1) as nat;
        lemma_pattern_sum(m);
        let r = m % 255;
        if r == 254 {
            assert(n / 255 == m / 255 + 1 && n % 255 == 0);
        } else {
            assert(n / 255 == m / 255 && n % 255 == r + 1);
            assert((r + 1) * r == r * (r - 1) + 2 * r) by (nonlinear_arith);
        }
    }
}

/// Allocates `sequences` sequences of `elements` elements each, fills each
/// with the pattern, then adds up all the elements of all the sequences.
pub fn io_total(sequences: u32, elements: u32) -> (total: u64)
    requires
        sequences * pattern_sum(elements as nat) <= u64::MAX,
    ensures
        total == sequences * pattern_sum(elements as nat),
{
    let mut data: Vec<Vec<u32>> = Vec::new();
    for s in 0..sequences
        invariant
            data@.len() == s,
            forall|j: int| 0 <= j < s ==> (#[trigger] data@[j])@ == pattern(elements as nat),
    {
        let mut inner: Vec<u32> = Vec::with_capacity(elements as usize);
        for i in 0..elements
            invariant
                inner@ == pattern(i as nat),
        {
            inner.push(i % 255);
            assert(inner@ =~= pattern((i + 1) as nat));
        }
        data.push(inner);
    }
    let mut total: u64 = 0;
    assert(0 * pattern_sum(elements as nat) == 0) by (nonlinear_arith);
    for j in 0..data.len()
        invariant
            data@.len() == sequences,
            forall|j: int| 0 <= j < sequences ==> (#[trigger] data@[j])@ == pattern(elements as nat),
            sequences * pattern_sum(elements as nat) <= u64::MAX,
            total == j * pattern_sum(elements as nat),
    {
        let inner = &data[j];
        let mut sum: u64 = 0;
        for i in 0..inner.len()
            invariant
                inner@ == pattern(elements as nat),
                sum == pattern_sum(i as nat),
        {
            proof {
                lemma_pattern_sum(i as nat);
            }
            sum += inner[i] as u64;
        }
        assert(total + sum <= u64::MAX && total + sum == (j + 1) * pattern_sum(elements as nat))
            by (nonlinear_arith)
            requires
                total == j * pattern_sum(elements as nat),
                sum == pattern_sum(elements as nat),
                j < sequences,
                sequences * pattern_sum(elements as nat) <= u64::MAX,
        ;
        total += sum;
    }
    total
}

} // verus!
