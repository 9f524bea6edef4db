//! Arithmetic mean of a sequence of integers.
//!
//! The mean is kept exact: the result carries the integer sum of the
//! elements and the element count. The caller forms the floating-point
//! quotient if it wants one; this module never rounds.

use vstd::prelude::*;

verus! {

/// The two operands of the mean's quotient: the exact sum of the elements
/// and how many there were. The accumulator is an `i128`, wide enough that
/// no sequence a `Vec` can hold overflows it.
#[derive(Clone, Copy, PartialEq, Eq, Structural, Debug)]
pub struct Mean {
    pub sum: i128,
    pub count: usize,
}

/// Result of averaging: `Present` for a non-empty sequence, `Absent` for an
/// empty one. `Present` never occurs for an empty input and `Absent` never
/// occurs for a non-empty input.
#[derive(Clone, Copy, PartialEq, Eq, Structural, Debug)]
pub enum AverageResult {
    Present(Mean),
    Absent,
}

/// The sum of a sequence of integers, as an unbounded integer.
pub open spec fn sum_seq(s: Seq<i32>) -> int
    decreases s.len(),
{
    if s.len() == 0 {
        0
    } else {
        sum_seq(s.drop_last()) + s.last()
    }
}

/// What `average` returns, as a function of the input sequence alone.
pub open spec fn average_spec(s: Seq<i32>) -> AverageResult {
    if s.len() == 0 {
        AverageResult::Absent
    } else {
        AverageResult::Present(Mean { sum: sum_seq(s) as i128, count: s.len() as usize })
    }
}

/// Each element lies in `i32`'s range, so the sum of `n` of them lies
/// within `n` times `i32`'s magnitude bound.
pub proof fn lemma_sum_seq_bound(s: Seq<i32>)
    ensures
        -(s.len() * 0x8000_0000) <= sum_seq(s) <= s.len() * 0x8000_0000,
    decreases s.len(),
{
    if s.len() > 0 {
        lemma_sum_seq_bound(s.drop_last());
    }
}

/// The arithmetic mean of `numbers`, exact: `Absent` when the sequence is
/// empty, otherwise `Present` with the integer sum and the element count.
pub fn average(numbers: &Vec<i32>) -> (r: AverageResult)
    ensures
        r == average_spec(numbers@),
{
    if numbers.len() == 0 {
        return AverageResult::Absent;
    }
    let mut sum: i128 = 0;
    let mut i: usize = 0;
    while i < numbers.len()
        invariant
            i <= numbers@.len(),
            sum == sum_seq(numbers@.take(i as int)),
        decreases numbers@.len() - i,
    {
        proof {
            lemma_sum_seq_bound(numbers@.take(i as int));
            assert(numbers@.take(i as int + 1).drop_last() =~= numbers@.take(i as int));
        }
        sum = sum + numbers[i] as i128;
        i = i + 1;
    }
    proof {
        assert(numbers@.take(numbers@.len() as int) =~= numbers@);
        lemma_sum_seq_bound(numbers@);
    }
    AverageResult::Present(Mean { sum, count: numbers.len() })
}

/// The result is `Present` exactly for a non-empty input and `Absent`
/// exactly for an empty one.
pub proof fn lemma_average_present_iff_nonempty(s: Seq<i32>)
    ensures
        (average_spec(s) is Present) <==> s.len() > 0,
        (average_spec(s) is Absent) <==> s.len() == 0,
{
}

/// For a non-empty sequence that a `Vec` can hold, the result carries
/// exactly the sum of the elements and the element count: the numerator
/// and denominator of the mean.
pub proof fn lemma_average_exact(s: Seq<i32>)
    requires
        0 < s.len() <= usize::MAX,
    ensures
        average_spec(s) matches AverageResult::Present(m) && m.sum == sum_seq(s) && m.count
            == s.len(),
{
    lemma_sum_seq_bound(s);
}

/// Averaging is a pure function of the sequence: equal inputs give equal
/// results, so a second call returns the same value as the first.
pub proof fn lemma_average_deterministic(s1: Seq<i32>, s2: Seq<i32>)
    requires
        s1 == s2,
    ensures
        average_spec(s1) == average_spec(s2),
{
}

} // verus!
