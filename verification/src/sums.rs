//! Sums over sequences of natural numbers, and the facts about them that the
//! allocation proofs rest on.

use vstd::prelude::*;

verus! {

/// The sum of all elements.
pub open spec fn seq_sum(s: Seq<nat>) -> nat
    decreases s.len(),
{
    if s.len() == 0 {
        0
    } else {
        seq_sum(s.drop_last()) + s.last()
    }
}

/// Appending an element adds it to the sum.
pub proof fn lemma_sum_push(s: Seq<nat>, x: nat)
    ensures
        seq_sum(s.push(x)) == seq_sum(s) + x,
{
    assert(s.push(x).drop_last() =~= s);
}

/// The sum of a prefix grows by the next element.
pub proof fn lemma_sum_take_next(s: Seq<nat>, k: int)
    requires
        0 <= k < s.len(),
    ensures
        seq_sum(s.take(k + 1)) == seq_sum(s.take(k)) + s[k],
{
    assert(s.take(k + 1).drop_last() =~= s.take(k));
}

/// No element exceeds the sum.
pub proof fn lemma_sum_member(s: Seq<nat>, i: int)
    requires
        0 <= i < s.len(),
    ensures
        s[i] <= seq_sum(s),
    decreases s.len(),
{
    if i < s.len() - 1 {
        lemma_sum_member(s.drop_last(), i);
    }
}

/// Elements that all stay below a bound sum to less than the bound times their number.
pub proof fn lemma_sum_below(s: Seq<nat>, bound: nat)
    requires
        forall|i: int| 0 <= i < s.len() ==> s[i] < bound,
    ensures
        seq_sum(s) + s.len() <= s.len() * bound,
    decreases s.len(),
{
    if s.len() > 0 {
        let front = s.drop_last();
        lemma_sum_below(front, bound);
        assert(s.len() * bound == front.len() * bound + bound) by (nonlinear_arith)
            requires
                s.len() == front.len() + 1,
        ;
    }
}

/// Equal elements sum to their value times their number.
pub proof fn lemma_sum_constant(s: Seq<nat>, value: nat)
    requires
        forall|i: int| 0 <= i < s.len() ==> s[i] == value,
    ensures
        seq_sum(s) == s.len() * value,
    decreases s.len(),
{
    if s.len() > 0 {
        let front = s.drop_last();
        lemma_sum_constant(front, value);
        assert(s.len() * value == front.len() * value + value) by (nonlinear_arith)
            requires
                s.len() == front.len() + 1,
        ;
    }
}

/// Scaling every element scales the sum.
pub proof fn lemma_sum_scaled(s: Seq<nat>, scaled: Seq<nat>, factor: nat)
    requires
        scaled.len() == s.len(),
        forall|i: int| 0 <= i < s.len() ==> scaled[i] == factor * s[i],
    ensures
        seq_sum(scaled) == factor * seq_sum(s),
    decreases s.len(),
{
    if s.len() > 0 {
        lemma_sum_scaled(s.drop_last(), scaled.drop_last(), factor);
        let last = s.len() - 1;
        assert(scaled[last] == factor * s[last]);
        assert(factor * (seq_sum(s.drop_last()) + s.last()) == factor * seq_sum(s.drop_last())
            + factor * s.last()) by (nonlinear_arith);
    } else {
        assert(factor * 0 == 0) by (nonlinear_arith);
    }
}

/// The sum of element-wise sums is the sum of the sums.
pub proof fn lemma_sum_pointwise(a: Seq<nat>, b: Seq<nat>, both: Seq<nat>)
    requires
        a.len() == both.len(),
        b.len() == both.len(),
        forall|i: int| 0 <= i < both.len() ==> both[i] == a[i] + b[i],
    ensures
        seq_sum(both) == seq_sum(a) + seq_sum(b),
    decreases both.len(),
{
    if both.len() > 0 {
        lemma_sum_pointwise(a.drop_last(), b.drop_last(), both.drop_last());
    }
}

/// Replacing one element changes the sum by the difference.
pub proof fn lemma_sum_update(s: Seq<nat>, i: int, value: nat)
    requires
        0 <= i < s.len(),
    ensures
        seq_sum(s.update(i, value)) + s[i] == seq_sum(s) + value,
    decreases s.len(),
{
    let t = s.update(i, value);
    if i < s.len() - 1 {
        lemma_sum_update(s.drop_last(), i, value);
        assert(t.drop_last() =~= s.drop_last().update(i, value));
    } else {
        assert(t.drop_last() =~= s.drop_last());
    }
}

/// A prefix sums to no more than the whole sequence.
pub proof fn lemma_sum_prefix(s: Seq<nat>, k: int)
    requires
        0 <= k <= s.len(),
    ensures
        seq_sum(s.take(k)) <= seq_sum(s),
    decreases s.len() - k,
{
    if k < s.len() {
        lemma_sum_take_next(s, k);
        lemma_sum_prefix(s, k + 1);
    } else {
        assert(s.take(k) =~= s);
    }
}

/// Element-wise smaller sequences have the smaller sum.
pub proof fn lemma_sum_monotone(a: Seq<nat>, b: Seq<nat>)
    requires
        a.len() == b.len(),
        forall|i: int| 0 <= i < a.len() ==> a[i] <= b[i],
    ensures
        seq_sum(a) <= seq_sum(b),
    decreases a.len(),
{
    if a.len() > 0 {
        lemma_sum_monotone(a.drop_last(), b.drop_last());
        let last = a.len() - 1;
        assert(a[last] <= b[last]);
    }
}

/// In a sequence of zeros and ones in which no one follows a zero, the ones are
/// exactly the first positions, as many as the sum says.
pub proof fn lemma_front_loaded(s: Seq<nat>)
    requires
        forall|i: int| 0 <= i < s.len() ==> s[i] <= 1,
        forall|i: int, j: int| 0 <= i < j < s.len() && s[j] == 1 ==> s[i] == 1,
    ensures
        forall|i: int| 0 <= i < s.len() ==> (s[i] == 1 <==> i < seq_sum(s)),
    decreases s.len(),
{
    if s.len() > 0 {
        let front = s.drop_last();
        let last = s.len() - 1;
        if s[last] == 1 {
            assert forall|i: int| 0 <= i < s.len() implies s[i] == 1 by {
                if i < last {
                    assert(s[last] == 1);
                }
            }
            lemma_sum_constant(s, 1);
        } else {
            lemma_front_loaded(front);
            lemma_sum_below(front, 2);
            assert forall|i: int| 0 <= i < s.len() implies (s[i] == 1 <==> i < seq_sum(s)) by {
                if i < last {
                    assert(front[i] == s[i]);
                }
            }
        }
    }
}

} // verus!
