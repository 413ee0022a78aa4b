use vstd::prelude::*;

verus! {

/// How many samples of `s` are strictly below `v`.
pub open spec fn count_lt(s: Seq<u16>, v: u16) -> nat
    decreases s.len(),
{
    if s.len() == 0 {
        0
    } else {
        count_lt(s.drop_last(), v) + if s.last() < v { 1nat } else { 0nat }
    }
}

/// How many samples of `s` are at most `v`.
pub open spec fn count_le(s: Seq<u16>, v: u16) -> nat
    decreases s.len(),
{
    if s.len() == 0 {
        0
    } else {
        count_le(s.drop_last(), v) + if s.last() <= v { 1nat } else { 0nat }
    }
}

/// `m` is the `k`-th smallest sample of `s` (counting from 0): at most `k`
/// samples lie below it and more than `k` lie at or below it.
pub open spec fn is_kth_smallest(s: Seq<u16>, k: int, m: u16) -> bool {
    count_lt(s, m) <= k < count_le(s, m)
}

/// Two sample sequences hold the same values the same number of times, as far
/// as rank is concerned.
pub open spec fn same_counts(a: Seq<u16>, b: Seq<u16>) -> bool {
    forall|t: u16|
        #![trigger count_lt(a, t)]
        #![trigger count_lt(b, t)]
        #![trigger count_le(a, t)]
        #![trigger count_le(b, t)]
        count_lt(a, t) == count_lt(b, t) && count_le(a, t) == count_le(b, t)
}

/// Samples in non-decreasing order.
pub open spec fn is_sorted(s: Seq<u16>) -> bool {
    forall|a: int, b: int| 0 <= a < b < s.len() ==> s[a] <= s[b]
}

pub proof fn lemma_count_concat(a: Seq<u16>, b: Seq<u16>, v: u16)
    ensures
        count_lt(a + b, v) == count_lt(a, v) + count_lt(b, v),
        count_le(a + b, v) == count_le(a, v) + count_le(b, v),
    decreases b.len(),
{
    if b.len() == 0 {
        assert(a + b =~= a);
    } else {
        lemma_count_concat(a, b.drop_last(), v);
        assert((a + b).drop_last() =~= a + b.drop_last());
        assert((a + b).last() == b.last());
    }
}

pub proof fn lemma_count_bounds(s: Seq<u16>, v: u16)
    ensures
        count_lt(s, v) <= count_le(s, v) <= s.len(),
    decreases s.len(),
{
    if s.len() > 0 {
        lemma_count_bounds(s.drop_last(), v);
    }
}

pub proof fn lemma_count_lt_none_below(s: Seq<u16>, v: u16)
    requires
        forall|i: int| 0 <= i < s.len() ==> v <= #[trigger] s[i],
    ensures
        count_lt(s, v) == 0,
    decreases s.len(),
{
    if s.len() > 0 {
        lemma_count_lt_none_below(s.drop_last(), v);
    }
}

pub proof fn lemma_count_le_all_below(s: Seq<u16>, v: u16)
    requires
        forall|i: int| 0 <= i < s.len() ==> #[trigger] s[i] <= v,
    ensures
        count_le(s, v) == s.len(),
    decreases s.len(),
{
    if s.len() > 0 {
        lemma_count_le_all_below(s.drop_last(), v);
    }
}

/// Exchanging two neighbouring samples changes no count.
pub proof fn lemma_swap_same_counts(s: Seq<u16>, j: int)
    requires
        1 <= j < s.len(),
    ensures
        same_counts(s, s.update(j - 1, s[j]).update(j, s[j - 1])),
{
    let t = s.update(j - 1, s[j]).update(j, s[j - 1]);
    let pre = s.take(j - 1);
    let post = s.skip(j + 1);
    let p1 = seq![s[j - 1], s[j]];
    let p2 = seq![s[j], s[j - 1]];
    assert(s =~= pre + p1 + post);
    assert(t =~= pre + p2 + post);
    assert forall|v: u16|
        #![trigger count_lt(s, v)]
        #![trigger count_lt(t, v)]
        #![trigger count_le(s, v)]
        #![trigger count_le(t, v)]
        count_lt(s, v) == count_lt(t, v) && count_le(s, v) == count_le(t, v) by {
        lemma_count_concat(pre + p1, post, v);
        lemma_count_concat(pre, p1, v);
        lemma_count_concat(pre + p2, post, v);
        lemma_count_concat(pre, p2, v);
        assert(p1.drop_last() =~= seq![s[j - 1]]);
        assert(p2.drop_last() =~= seq![s[j]]);
        assert(seq![s[j - 1]].drop_last() =~= Seq::<u16>::empty());
        assert(seq![s[j]].drop_last() =~= Seq::<u16>::empty());
        reveal_with_fuel(count_lt, 3);
        reveal_with_fuel(count_le, 3);
    }
}

/// In a sorted sequence the sample at position `k` is the `k`-th smallest.
pub proof fn lemma_sorted_kth(t: Seq<u16>, k: int)
    requires
        is_sorted(t),
        0 <= k < t.len(),
    ensures
        is_kth_smallest(t, k, t[k]),
{
    let m = t[k];
    let lo = t.take(k);
    let hi = t.skip(k);
    assert(t =~= lo + hi);
    lemma_count_concat(lo, hi, m);
    lemma_count_bounds(lo, m);
    assert forall|i: int| 0 <= i < hi.len() implies m <= #[trigger] hi[i] by {
        assert(hi[i] == t[k + i]);
    }
    lemma_count_lt_none_below(hi, m);
    let lo1 = t.take(k + 1);
    let hi1 = t.skip(k + 1);
    assert(t =~= lo1 + hi1);
    lemma_count_concat(lo1, hi1, m);
    assert forall|i: int| 0 <= i < lo1.len() implies #[trigger] lo1[i] <= m by {
        assert(lo1[i] == t[i]);
    }
    lemma_count_le_all_below(lo1, m);
}

/// Below any value at or above `m2` lie at least as many samples as at or
/// below any value under it.
pub proof fn lemma_count_monotone(s: Seq<u16>, m1: u16, m2: u16)
    requires
        m1 < m2,
    ensures
        count_le(s, m1) <= count_lt(s, m2),
    decreases s.len(),
{
    if s.len() > 0 {
        lemma_count_monotone(s.drop_last(), m1, m2);
    }
}

/// The `k`-th smallest sample is determined by the samples and `k` alone.
pub proof fn lemma_kth_smallest_unique(s: Seq<u16>, k: int, m1: u16, m2: u16)
    requires
        is_kth_smallest(s, k, m1),
        is_kth_smallest(s, k, m2),
    ensures
        m1 == m2,
{
    if m1 < m2 {
        lemma_count_monotone(s, m1, m2);
    } else if m2 < m1 {
        lemma_count_monotone(s, m2, m1);
    }
}

/// The `k`-th smallest sample is one of the samples.
pub proof fn lemma_kth_smallest_is_sample(s: Seq<u16>, k: int, m: u16)
    requires
        is_kth_smallest(s, k, m),
    ensures
        s.contains(m),
    decreases s.len(),
{
    if s.len() == 0 {
    } else if s.last() == m {
        assert(s[s.len() - 1] == m);
    } else {
        lemma_kth_smallest_is_sample(s.drop_last(), k - (if s.last() < m { 1int } else { 0int }), m);
        let i = choose|i: int| 0 <= i < s.drop_last().len() && s.drop_last()[i] == m;
        assert(s[i] == m);
    }
}

/// Sorts the samples in place; the result is ordered and has the same counts.
pub fn sort_samples(v: &mut Vec<u16>)
    ensures
        final(v)@.len() == old(v)@.len(),
        is_sorted(final(v)@),
        same_counts(final(v)@, old(v)@),
{
    let ghost orig = v@;
    let n = v.len();
    if n == 0 {
        return;
    }
    let mut i: usize = 1;
    while i < n
        invariant
            1 <= i <= n,
            n == v@.len(),
            n == orig.len(),
            same_counts(v@, orig),
            forall|a: int, b: int| 0 <= a < b < i ==> v@[a] <= v@[b],
        decreases n - i,
    {
        let mut j: usize = i;
        while j > 0 && v[j - 1] > v[j]
            invariant
                0 <= j <= i < n,
                n == v@.len(),
                n == orig.len(),
                same_counts(v@, orig),
                forall|a: int, b: int| 0 <= a < b <= i && a != j && b != j ==> v@[a] <= v@[b],
                forall|b: int| j < b <= i ==> v@[j as int] <= v@[b],
            decreases j,
        {
            let lo = v[j - 1];
            let hi = v[j];
            proof {
                lemma_swap_same_counts(v@, j as int);
            }
            let ghost before = v@;
            v.set(j - 1, hi);
            v.set(j, lo);
            assert(v@ =~= before.update(j - 1, before[j as int]).update(j as int, before[j - 1]));
            j = j - 1;
        }
        i = i + 1;
    }
}

/// The sample of rank `len / 2` of a non-empty sequence of samples.
pub fn median_of(v: Vec<u16>) -> (m: u16)
    requires
        v@.len() > 0,
    ensures
        is_kth_smallest(v@, (v@.len() / 2) as int, m),
{
    let ghost orig = v@;
    let mut w = v;
    sort_samples(&mut w);
    let m = w[w.len() / 2];
    proof {
        lemma_sorted_kth(w@, (w@.len() / 2) as int);
    }
    m
}

} // verus!
