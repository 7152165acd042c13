//! Sums of a non-negative quantity over a sequence, and the facts about
//! prefixes that loops over the sequence rely on.

use vstd::prelude::*;

verus! {

/// The sum of `f` over all items of `s`.
pub open spec fn sum_over<T>(s: Seq<T>, f: spec_fn(T) -> nat) -> nat
    decreases s.len(),
{
    if s.len() == 0 {
        0
    } else {
        sum_over(s.drop_last(), f) + f(s.last())
    }
}

/// Extending a prefix by one item adds that item's quantity to the sum.
pub proof fn lemma_sum_step<T>(s: Seq<T>, f: spec_fn(T) -> nat, i: int)
    requires
        0 <= i < s.len(),
    ensures
        sum_over(s.take(i + 1), f) == sum_over(s.take(i), f) + f(s[i]),
{
    assert(s.take(i + 1).drop_last() =~= s.take(i));
}

/// The sum over a prefix never exceeds the sum over the whole sequence.
pub proof fn lemma_sum_prefix_le<T>(s: Seq<T>, f: spec_fn(T) -> nat, i: int)
    requires
        0 <= i <= s.len(),
    ensures
        sum_over(s.take(i), f) <= sum_over(s, f),
    decreases s.len() - i,
{
    if i == s.len() {
        assert(s.take(i) =~= s);
    } else {
        lemma_sum_step(s, f, i);
        lemma_sum_prefix_le(s, f, i + 1);
    }
}

/// The sum over the whole sequence, seen as its longest prefix.
pub proof fn lemma_sum_full<T>(s: Seq<T>, f: spec_fn(T) -> nat)
    ensures
        sum_over(s.take(s.len() as int), f) == sum_over(s, f),
{
    assert(s.take(s.len() as int) =~= s);
}

/// Sums are insensitive to the order in which two parts are merged:
/// the sum over a concatenation is the sum of the parts' sums.
pub proof fn lemma_sum_concat<T>(a: Seq<T>, b: Seq<T>, f: spec_fn(T) -> nat)
    ensures
        sum_over(a + b, f) == sum_over(a, f) + sum_over(b, f),
        sum_over(a + b, f) == sum_over(b + a, f),
    decreases a.len() + b.len(),
{
    lemma_sum_concat_left(a, b, f);
    lemma_sum_concat_left(b, a, f);
}

proof fn lemma_sum_concat_left<T>(a: Seq<T>, b: Seq<T>, f: spec_fn(T) -> nat)
    ensures
        sum_over(a + b, f) == sum_over(a, f) + sum_over(b, f),
    decreases b.len(),
{
    if b.len() == 0 {
        assert(a + b =~= a);
    } else {
        assert((a + b).drop_last() =~= a + b.drop_last());
        lemma_sum_concat_left(a, b.drop_last(), f);
    }
}

} // verus!
