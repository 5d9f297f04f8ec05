//! Facts about sequences of distinct indices.
use vstd::prelude::*;

verus! {

/// Natural numbers below `n`.
pub open spec fn below(n: nat) -> Set<usize> {
    Set::new(|i: usize| i < n)
}

pub proof fn lemma_below_len(n: nat)
    requires
        n <= usize::MAX + 1,
    ensures
        below(n).finite(),
        below(n).len() == n,
    decreases n,
{
    if n == 0 {
        assert(below(0) =~= Set::<usize>::empty());
    } else {
        lemma_below_len((n - 1) as nat);
        assert(below((n - 1) as nat).insert((n - 1) as usize) =~= below(n));
    }
}

/// A sequence of distinct numbers below `n` has at most `n` elements, and
/// exactly `n` only when it holds every one of them.
pub proof fn lemma_distinct_below(s: Seq<usize>, n: nat)
    requires
        n <= usize::MAX + 1,
        s.no_duplicates(),
        forall|p: int| 0 <= p < s.len() ==> s[p] < n,
    ensures
        s.len() <= n,
        s.len() == n ==> forall|i: usize| i < n ==> s.contains(i),
{
    lemma_below_len(n);
    s.unique_seq_to_set();
    assert(s.to_set().subset_of(below(n)));
    vstd::set_lib::lemma_len_subset(s.to_set(), below(n));
    if s.len() == n {
        vstd::set_lib::lemma_subset_equality(s.to_set(), below(n));
        assert forall|i: usize| i < n implies s.contains(i) by {
            assert(below(n).contains(i));
            assert(s.to_set().contains(i));
        }
    }
}

/// A sequence of distinct numbers below `n` that is shorter than `n` misses one.
pub proof fn lemma_missing_below(s: Seq<usize>, n: nat) -> (v: usize)
    requires
        n <= usize::MAX + 1,
        s.no_duplicates(),
        forall|p: int| 0 <= p < s.len() ==> s[p] < n,
        s.len() < n,
    ensures
        v < n,
        !s.contains(v),
{
    if forall|v: usize| v < n ==> s.contains(v) {
        lemma_below_len(n);
        s.unique_seq_to_set();
        assert(below(n).subset_of(s.to_set()));
        vstd::seq_lib::seq_to_set_is_finite(s);
        vstd::set_lib::lemma_len_subset(below(n), s.to_set());
        assert(false);
        0
    } else {
        choose|v: usize| v < n && !s.contains(v)
    }
}

pub proof fn lemma_push_contains(s: Seq<usize>, a: usize, x: usize)
    ensures
        s.push(a).contains(x) <==> (s.contains(x) || x == a),
{
    if s.contains(x) {
        let t = choose|t: int| 0 <= t < s.len() && s[t] == x;
        assert(s.push(a)[t] == x);
    }
    if x == a {
        assert(s.push(a)[s.len() as int] == x);
    }
    if s.push(a).contains(x) {
        let t = choose|t: int| 0 <= t < s.push(a).len() && s.push(a)[t] == x;
        if t < s.len() {
            assert(s[t] == x);
        }
    }
}

/// `order` lists each of `0..n` exactly once.
pub open spec fn is_permutation(order: Seq<usize>, n: int) -> bool {
    &&& order.len() == n
    &&& order.no_duplicates()
    &&& forall|p: int| 0 <= p < order.len() ==> order[p] < n
    &&& forall|i: usize| i < n ==> order.contains(i)
}


} // verus!
