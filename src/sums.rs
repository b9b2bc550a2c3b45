//! Summing integers, a slice at a time.
use vstd::prelude::*;

verus! {

pub open spec fn sum_of(s: Seq<i32>) -> int
    decreases s.len(),
{
    if s.len() == 0 {
        0
    } else {
        sum_of(s.drop_last()) + s.last()
    }
}

proof fn lemma_sum_bound(s: Seq<i32>)
    ensures
        -0x8000_0000 * s.len() <= sum_of(s) <= 0x7fff_ffff * s.len(),
    decreases s.len(),
{
    if s.len() > 0 {
        lemma_sum_bound(s.drop_last());
    }
}

/// The sum of a slice of up to 2^32 numbers, which always fits in `i64`.
pub fn sum_slice(numbers: &[i32]) -> (r: i64)
    requires
        numbers@.len() <= 0x1_0000_0000,
    ensures
        r == sum_of(numbers@),
{
    let mut total: i64 = 0;
    let mut i: usize = 0;
    while i < numbers.len()
        invariant
            i <= numbers@.len() <= 0x1_0000_0000,
            total == sum_of(numbers@.take(i as int)),
        decreases numbers@.len() - i,
    {
        proof {
            assert(numbers@.take(i + 1).drop_last() =~= numbers@.take(i as int));
            lemma_sum_bound(numbers@.take(i + 1));
        }
        total = total + numbers[i] as i64;
        i += 1;
    }
    proof {
        assert(numbers@.take(i as int) =~= numbers@);
    }
    total
}

} // verus!
