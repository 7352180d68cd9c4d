//! Summation over sequences: the indicator aggregates are all stated as
//! `sum_of` a per-record term, and the lemmas here give the range, step and
//! zero-characterization facts the engine needs.

use vstd::prelude::*;
use vstd::arithmetic::mul::lemma_mul_upper_bound;
use crate::model::MAX_ITEMS;

verus! {

/// Largest per-term value `sum_terms` accepts; `MAX_ITEMS` terms of this
/// size still fit in `u64`.
pub const MAX_TERM: u64 = 1_000_000_000_000_000;

/// Sum of `f` over the records of `s`.
pub open spec fn sum_of<T>(s: Seq<T>, f: spec_fn(T) -> int) -> int
    decreases s.len(),
{
    if s.len() == 0 {
        0
    } else {
        sum_of(s.drop_last(), f) + f(s.last())
    }
}

/// A sum of terms between zero and `b` lies between zero and `len * b`.
pub proof fn lemma_sum_bounds<T>(s: Seq<T>, f: spec_fn(T) -> int, b: int)
    requires
        forall|i: int| 0 <= i < s.len() ==> 0 <= #[trigger] f(s[i]) <= b,
    ensures
        0 <= sum_of(s, f) <= s.len() * b,
    decreases s.len(),
{
    if s.len() == 0 {
    } else {
        lemma_sum_bounds(s.drop_last(), f, b);
        assert((s.len() - 1) * b + b == s.len() * b) by (nonlinear_arith);
    }
}

/// Extending the summed prefix by one record adds that record's term.
pub proof fn lemma_sum_take_step<T>(s: Seq<T>, f: spec_fn(T) -> int, i: int)
    requires
        0 <= i < s.len(),
    ensures
        sum_of(s.take(i + 1), f) == sum_of(s.take(i), f) + f(s[i]),
{
    assert(s.take(i + 1).drop_last() =~= s.take(i));
    assert(s.take(i + 1).last() == s[i]);
}

/// The whole sequence is the full prefix.
pub proof fn lemma_sum_take_all<T>(s: Seq<T>, f: spec_fn(T) -> int)
    ensures
        sum_of(s.take(s.len() as int), f) == sum_of(s, f),
{
    assert(s.take(s.len() as int) =~= s);
}

/// A sum of non-negative terms is zero exactly when every term is zero.
pub proof fn lemma_sum_zero_iff<T>(s: Seq<T>, f: spec_fn(T) -> int)
    requires
        forall|i: int| 0 <= i < s.len() ==> 0 <= #[trigger] f(s[i]),
    ensures
        sum_of(s, f) == 0 <==> forall|i: int| 0 <= i < s.len() ==> #[trigger] f(s[i]) == 0,
    decreases s.len(),
{
    if s.len() == 0 {
    } else {
        lemma_sum_zero_iff(s.drop_last(), f);
        assert(forall|i: int| 0 <= i < s.len() - 1 ==> s.drop_last()[i] == #[trigger] s[i]);
        assert(s.last() == s[s.len() - 1]);
        lemma_sum_bounds_nonneg(s.drop_last(), f);
    }
}

/// A sum of non-negative terms is non-negative.
pub proof fn lemma_sum_bounds_nonneg<T>(s: Seq<T>, f: spec_fn(T) -> int)
    requires
        forall|i: int| 0 <= i < s.len() ==> 0 <= #[trigger] f(s[i]),
    ensures
        0 <= sum_of(s, f),
    decreases s.len(),
{
    if s.len() > 0 {
        lemma_sum_bounds_nonneg(s.drop_last(), f);
    }
}

/// Two sums of pointwise-equal terms are equal.
pub proof fn lemma_sum_pointwise_eq<T, U>(
    s: Seq<T>,
    f: spec_fn(T) -> int,
    v: Seq<U>,
    g: spec_fn(U) -> int,
)
    requires
        s.len() == v.len(),
        forall|i: int| 0 <= i < s.len() ==> #[trigger] f(s[i]) == g(v[i]),
    ensures
        sum_of(s, f) == sum_of(v, g),
    decreases s.len(),
{
    if s.len() > 0 {
        assert(forall|i: int| 0 <= i < s.len() - 1 ==> s.drop_last()[i] == #[trigger] s[i]);
        assert(forall|i: int| 0 <= i < v.len() - 1 ==> v.drop_last()[i] == #[trigger] v[i]);
        lemma_sum_pointwise_eq(s.drop_last(), f, v.drop_last(), g);
    }
}

/// Adds a vector of bounded terms; every indicator aggregate reduces to one
/// call of this function through `lemma_sum_pointwise_eq`.
pub fn sum_terms(v: &Vec<u64>, bound: u64) -> (r: u64)
    requires
        v@.len() <= MAX_ITEMS,
        bound <= MAX_TERM,
        forall|i: int| 0 <= i < v@.len() ==> #[trigger] v@[i] <= bound,
    ensures
        r as int == sum_of(v@, |x: u64| x as int),
        r as int <= v@.len() * bound,
{
    let ghost f = |x: u64| x as int;
    proof {
        assert(v@.take(0) =~= Seq::<u64>::empty());
    }
    let n = v.len();
    let mut acc: u64 = 0;
    for i in 0..n
        invariant
            n == v.len(),
            v@.len() <= MAX_ITEMS,
            bound <= MAX_TERM,
            f == (|x: u64| x as int),
            forall|j: int| 0 <= j < v@.len() ==> #[trigger] v@[j] <= bound,
            acc as int == sum_of(v@.take(i as int), f),
    {
        proof {
            assert forall|j: int| 0 <= j < v@.take(i + 1).len() implies 0 <= #[trigger] f(
                v@.take(i + 1)[j],
            ) <= bound as int by {
                assert(v@.take(i + 1)[j] == v@[j]);
            }
            lemma_sum_bounds(v@.take(i + 1), f, bound as int);
            lemma_sum_take_step(v@, f, i as int);
            lemma_mul_upper_bound(i + 1, MAX_ITEMS as int, bound as int, MAX_TERM as int);
        }
        acc = acc + v[i];
    }
    proof {
        lemma_sum_take_all(v@, f);
        lemma_sum_bounds(v@, f, bound as int);
    }
    acc
}

/// Sums respect a pointwise bound between two term functions.
pub proof fn lemma_sum_pointwise_le<T>(s: Seq<T>, f: spec_fn(T) -> int, g: spec_fn(T) -> int)
    requires
        forall|i: int| 0 <= i < s.len() ==> #[trigger] f(s[i]) <= #[trigger] g(s[i]),
    ensures
        sum_of(s, f) <= sum_of(s, g),
    decreases s.len(),
{
    if s.len() > 0 {
        assert(forall|i: int| 0 <= i < s.len() - 1 ==> s.drop_last()[i] == #[trigger] s[i]);
        lemma_sum_pointwise_le(s.drop_last(), f, g);
    }
}

} // verus!
