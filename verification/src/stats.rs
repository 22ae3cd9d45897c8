//! Robust summary of repeated timing measurements.

use vstd::prelude::*;

verus! {

pub open spec fn is_sorted(s: Seq<u128>) -> bool {
    forall|i: int, j: int| 0 <= i <= j < s.len() ==> s[i] <= s[j]
}

/// `<[u128]>::sort_unstable`: sorts the slice in ascending order. The
/// contract states what the standard library documents: afterwards the
/// slice holds the same elements (as a multiset) in non-decreasing order.
#[verifier::external_body]
fn sort_unstable(samples: &mut [u128])
    ensures
        final(samples)@.to_multiset() == old(samples)@.to_multiset(),
        is_sorted(final(samples)@),
{
    samples.sort_unstable();
}

/// Sort the samples in place and return the middle one (the upper median
/// for an even count).
pub fn median_duration(samples: &mut [u128]) -> (median: u128)
    requires
        old(samples)@.len() > 0,
    ensures
        final(samples)@.to_multiset() == old(samples)@.to_multiset(),
        is_sorted(final(samples)@),
        final(samples)@.len() == old(samples)@.len(),
        median == final(samples)@[(old(samples)@.len() / 2) as int],
{
    sort_unstable(samples);
    assert(samples@.len() == old(samples)@.len()) by {
        old(samples)@.to_multiset_ensures();
        samples@.to_multiset_ensures();
    }
    samples[samples.len() / 2]
}

/// The median of `n` sorted samples is at least the `n / 2 + 1` smallest
/// samples and at most the `n - n / 2` largest ones, and it is one of them.
pub proof fn lemma_median_splits_samples(sorted: Seq<u128>)
    requires
        sorted.len() > 0,
        is_sorted(sorted),
    ensures
        forall|i: int| 0 <= i <= sorted.len() / 2 ==> #[trigger] sorted[i] <= sorted[(sorted.len() / 2) as int],
        forall|i: int| sorted.len() / 2 <= i < sorted.len() ==> sorted[(sorted.len() / 2) as int] <= #[trigger] sorted[i],
        sorted.to_multiset().count(sorted[(sorted.len() / 2) as int]) > 0,
{
    sorted.to_multiset_ensures();
    assert(sorted.contains(sorted[(sorted.len() / 2) as int]));
}

} // verus!
