//! Checked arithmetic over slices.

use vstd::prelude::*;

verus! {

/// The mathematical sum of a sequence of `u32` values.
pub open spec fn spec_sum(s: Seq<u32>) -> int
    decreases s.len(),
{
    if s.len() == 0 {
        0
    } else {
        spec_sum(s.drop_last()) + s.last()
    }
}

/// The sum of any prefix is at most the sum of the whole sequence.
pub proof fn lemma_sum_prefix_le(s: Seq<u32>, k: int)
    requires
        0 <= k <= s.len(),
    ensures
        0 <= spec_sum(s.take(k)) <= spec_sum(s),
    decreases s.len() - k,
{
    if k == s.len() {
        assert(s.take(k) =~= s);
        lemma_sum_nonnegative(s);
    } else {
        lemma_sum_prefix_le(s, k + 1);
        assert(s.take(k + 1).drop_last() =~= s.take(k));
        lemma_sum_nonnegative(s.take(k));
    }
}

/// A sum of unsigned values is never negative.
pub proof fn lemma_sum_nonnegative(s: Seq<u32>)
    ensures
        spec_sum(s) >= 0,
    decreases s.len(),
{
    if s.len() > 0 {
        lemma_sum_nonnegative(s.drop_last());
    }
}

/// Adds up all the numbers, or reports `None` when the total does not fit in
/// a `u32`.
pub fn sum_u32(nums: &[u32]) -> (r: Option<u32>)
    ensures
        r is Some <==> spec_sum(nums@) <= u32::MAX,
        r is Some ==> r->Some_0 == spec_sum(nums@),
{
    let mut sum: u32 = 0;
    let mut i: usize = 0;
    while i < nums.len()
        invariant
            0 <= i <= nums.len(),
            sum == spec_sum(nums@.take(i as int)),
        decreases nums.len() - i,
    {
        let v: u32 = nums[i];
        proof {
            assert(nums@.take(i + 1).drop_last() =~= nums@.take(i as int));
            lemma_sum_prefix_le(nums@, i + 1);
        }
        match sum.checked_add(v) {
            Some(n) => {
                sum = n;
            },
            None => {
                return None;
            },
        }
        i = i + 1;
    }
    proof {
        assert(nums@.take(i as int) =~= nums@);
    }
    Some(sum)
}

} // verus!
