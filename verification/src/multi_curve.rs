//! Multi-curve framework: forward-curve tenors and the dependency graph
//! between curves (which curve discounts which), with cycle detection and
//! the order in which curves are built.
use vstd::prelude::*;
use crate::rate_index::RateIndex;
use crate::engine_error::{BootstrapError, CurveEngineError};
use crate::curve_set::CurveSet;
use crate::keyed::{entries_map, lemma_entries_cloned};
use crate::seq_facts::{is_permutation, lemma_distinct_below, lemma_missing_below, lemma_push_contains};

verus! {

/// Tenor of a forward curve.
#[derive(Debug, Clone, Copy, PartialEq, Eq, Hash, Structural)]
pub enum Tenor {
    /// Overnight rate (e.g. SOFR, ESTR).
    Overnight,
    /// 1-month tenor.
    OneMonth,
    /// 3-month tenor (default).
    ThreeMonth,
    /// 6-month tenor.
    SixMonth,
    /// 12-month tenor.
    TwelveMonth,
}

/// Display name of a tenor.
pub open spec fn tenor_name(t: Tenor) -> &'static str {
    match t {
        Tenor::Overnight => "ON",
        Tenor::OneMonth => "1M",
        Tenor::ThreeMonth => "3M",
        Tenor::SixMonth => "6M",
        Tenor::TwelveMonth => "12M",
    }
}

impl Default for Tenor {
    fn default() -> (r: Self)
        ensures
            r == Tenor::ThreeMonth,
    {
        Tenor::ThreeMonth
    }
}

impl Tenor {
    /// The tenor name for display.
    pub fn name(&self) -> (r: &'static str)
        ensures
            r@ == tenor_name(*self)@,
    {
        match self {
            Tenor::Overnight => "ON",
            Tenor::OneMonth => "1M",
            Tenor::ThreeMonth => "3M",
            Tenor::SixMonth => "6M",
            Tenor::TwelveMonth => "12M",
        }
    }

    /// The text that `{}` prints: the tenor name.
    pub fn to_display_string(&self) -> (r: String)
        ensures
            r@ == tenor_name(*self)@,
    {
        self.name().to_owned()
    }
}

/// What a curve depends on for discounting.
#[derive(Debug, Clone, Copy)]
pub struct CurveDependency {
    /// The index of the curve being built.
    pub index: RateIndex,
    /// The index of the discount curve, if different from the curve itself.
    pub discount_index: Option<RateIndex>,
    /// Tenor, for forward curves.
    pub tenor: Option<Tenor>,
}

impl CurveDependency {
    /// A self-discounting curve for `index`.
    pub fn new(index: RateIndex) -> (r: Self)
        ensures
            r.index == index,
            r.discount_index is None,
            r.tenor is None,
    {
        CurveDependency { index, discount_index: None, tenor: None }
    }

    /// Sets the discount curve dependency.
    pub fn with_discount(self, discount_index: RateIndex) -> (r: Self)
        ensures
            r.index == self.index,
            r.discount_index == Some(discount_index),
            r.tenor == self.tenor,
    {
        CurveDependency { index: self.index, discount_index: Some(discount_index), tenor: self.tenor }
    }

    /// Sets the tenor of a forward curve.
    pub fn with_tenor(self, tenor: Tenor) -> (r: Self)
        ensures
            r.index == self.index,
            r.discount_index == self.discount_index,
            r.tenor == Some(tenor),
    {
        CurveDependency { index: self.index, discount_index: self.discount_index, tenor: Some(tenor) }
    }

    /// True when the curve discounts on itself.
    pub fn is_self_discounting(&self) -> (r: bool)
        ensures
            r == self_discounting(*self),
    {
        match self.discount_index {
            None => true,
            Some(d) => d == self.index,
        }
    }
}

/// A curve discounts on itself when it names no other discount curve.
pub open spec fn self_discounting(d: CurveDependency) -> bool {
    d.discount_index is None || d.discount_index == Some(d.index)
}

// ---------------------------------------------------------------------------
// The dependency graph
// ---------------------------------------------------------------------------

/// The position of the last specification keyed by `key` (later entries
/// replace earlier ones, as in a map filled front to back).
pub open spec fn last_index_of(s: Seq<CurveDependency>, key: RateIndex) -> Option<int>
    decreases s.len(),
{
    if s.len() == 0 {
        None
    } else if s.last().index == key {
        Some(s.len() - 1)
    } else {
        last_index_of(s.drop_last(), key)
    }
}

/// The key that curve `i` depends on, when it names a discount curve other than itself.
pub open spec fn dependency_key(s: Seq<CurveDependency>, i: int) -> Option<RateIndex> {
    match s[i].discount_index {
        Some(d) => if d != s[i].index { Some(d) } else { None },
        None => None,
    }
}

/// The specification that curve `i` must wait for: the one that builds
/// the curve it discounts on, when that curve is among the specifications.
pub open spec fn dependency_target(s: Seq<CurveDependency>, i: int) -> Option<int> {
    match dependency_key(s, i) {
        Some(k) => last_index_of(s, k),
        None => None,
    }
}

/// Following the dependencies `k` times from `i`.
pub open spec fn follow(s: Seq<CurveDependency>, i: int, k: nat) -> Option<int>
    decreases k,
{
    if k == 0 {
        Some(i)
    } else {
        match follow(s, i, (k - 1) as nat) {
            Some(j) => dependency_target(s, j),
            None => None,
        }
    }
}

/// Some curve depends, directly or through others, on itself.
pub open spec fn has_cycle(s: Seq<CurveDependency>) -> bool {
    exists|i: int, k: nat| 0 <= i < s.len() && k >= 1 && #[trigger] follow(s, i, k) == Some(i)
}

/// Every discount key that some curve depends on names exactly one curve.
pub open spec fn dependency_keys_unique(s: Seq<CurveDependency>) -> bool {
    forall|i: int, j1: int, j2: int|
        0 <= i < s.len() && 0 <= j1 < s.len() && 0 <= j2 < s.len()
            && dependency_key(s, i) == Some(s[j1].index) && s[j1].index == s[j2].index
            ==> j1 == j2
}

/// Every curve comes after the curve it depends on.
pub open spec fn dependencies_first(s: Seq<CurveDependency>, order: Seq<usize>) -> bool {
    forall|p: int| 0 <= p < order.len() ==> match #[trigger] dependency_target(s, order[p] as int) {
        Some(j) => exists|q: int| 0 <= q < p && order[q] == j,
        None => true,
    }
}

// --- lemmas on the dependency graph -----------------------------------------

proof fn lemma_last_index_of(s: Seq<CurveDependency>, key: RateIndex)
    ensures
        match last_index_of(s, key) {
            Some(j) => 0 <= j < s.len() && s[j].index == key
                && forall|m: int| j < m < s.len() ==> s[m].index != key,
            None => forall|m: int| 0 <= m < s.len() ==> s[m].index != key,
        },
    decreases s.len(),
{
    if s.len() > 0 {
        let last = s.len() - 1;
        assert(s.last() == s[last]);
        if s.last().index != key {
            lemma_last_index_of(s.drop_last(), key);
            assert forall|m: int| 0 <= m < last implies s.drop_last()[m] == s[m] by {}
        }
    }
}

proof fn lemma_target_in_range(s: Seq<CurveDependency>, i: int)
    requires
        0 <= i < s.len(),
    ensures
        match dependency_target(s, i) {
            Some(j) => 0 <= j < s.len() && j != i && Some(s[j].index) == dependency_key(s, i),
            None => true,
        },
{
    if let Some(k) = dependency_key(s, i) {
        lemma_last_index_of(s, k);
    }
}

proof fn lemma_follow_in_range(s: Seq<CurveDependency>, i: int, k: nat)
    requires
        0 <= i < s.len(),
    ensures
        match follow(s, i, k) {
            Some(j) => 0 <= j < s.len(),
            None => true,
        },
    decreases k,
{
    if k > 0 {
        lemma_follow_in_range(s, i, (k - 1) as nat);
        if let Some(j) = follow(s, i, (k - 1) as nat) {
            lemma_target_in_range(s, j);
        }
    }
}

/// Following `a + b` steps is following `a` steps, then `b`.
proof fn lemma_follow_compose(s: Seq<CurveDependency>, i: int, a: nat, b: nat)
    ensures
        follow(s, i, a + b) == match follow(s, i, a) {
            Some(j) => follow(s, j, b),
            None => None,
        },
    decreases b,
{
    if b > 0 {
        lemma_follow_compose(s, i, a, (b - 1) as nat);
        assert((a + b - 1) as nat == a + (b - 1) as nat);
    }
}

/// Once the chain of dependencies ends, it stays ended.
proof fn lemma_follow_none_stays(s: Seq<CurveDependency>, i: int, a: nat, b: nat)
    requires
        a <= b,
        follow(s, i, a) is None,
    ensures
        follow(s, i, b) is None,
    decreases b - a,
{
    if a < b {
        lemma_follow_none_stays(s, i, a, (b - 1) as nat);
    }
}

/// The chain of dependencies from `i` ends.
pub open spec fn chain_ends(s: Seq<CurveDependency>, i: int) -> bool {
    exists|k: nat| #[trigger] follow(s, i, k) is None
}

/// A node on a cycle has a chain that never ends.
proof fn lemma_cycle_never_ends(s: Seq<CurveDependency>, i: int, k: nat, n: nat)
    requires
        k >= 1,
        follow(s, i, k) == Some(i),
    ensures
        follow(s, i, n) is Some,
    decreases n,
{
    if n >= k {
        lemma_cycle_never_ends(s, i, k, (n - k) as nat);
        lemma_follow_compose(s, i, k, (n - k) as nat);
        assert(k + (n - k) as nat == n);
    } else {
        if follow(s, i, n) is None {
            lemma_follow_none_stays(s, i, n, k);
        }
    }
}

/// When `i` depends on `j`, the chain from `i` is the chain from `j` shifted by one.
proof fn lemma_follow_step(s: Seq<CurveDependency>, i: int, j: int, k: nat)
    requires
        dependency_target(s, i) == Some(j),
    ensures
        follow(s, i, k + 1) == follow(s, j, k),
{
    lemma_follow_compose(s, i, 1, k);
    assert(follow(s, i, 1) == Some(j)) by {
        reveal_with_fuel(follow, 2);
    }
    assert(1 + k == k + 1);
}

/// If some node lies in a set that is closed under dependencies (every
/// member depends on a member), the graph has a cycle.
proof fn lemma_closed_set_has_cycle(s: Seq<CurveDependency>, outside: Seq<usize>, r: int)
    requires
        s.len() <= usize::MAX,
        0 <= r < s.len(),
        !outside.contains(r as usize),
        forall|x: int| 0 <= x < s.len() && !outside.contains(x as usize) ==>
            match #[trigger] dependency_target(s, x) {
                Some(j) => !outside.contains(j as usize),
                None => false,
            },
    ensures
        has_cycle(s),
{
    let n = s.len();
    // Every step of the chain from r stays inside the closed set.
    assert forall|k: nat| #[trigger] follow(s, r, k) is Some
        && 0 <= follow(s, r, k).unwrap() < n
        && !outside.contains(follow(s, r, k).unwrap() as usize) by {
        lemma_chain_stays(s, outside, r, k);
    }
    let chain = Seq::new((n + 1) as nat, |k: int| follow(s, r, k as nat).unwrap() as usize);
    assert forall|p: int| 0 <= p < chain.len() implies chain[p] < n by {
        assert(follow(s, r, p as nat) is Some);
    }
    if chain.no_duplicates() {
        lemma_distinct_below(chain, n);
        assert(false);
    } else {
        let (a, b) = choose|a: int, b: int|
            0 <= a < chain.len() && 0 <= b < chain.len() && a != b && chain[a] == chain[b];
        let (lo, hi) = if a < b { (a, b) } else { (b, a) };
        let x = follow(s, r, lo as nat).unwrap();
        assert(follow(s, r, lo as nat) is Some);
        assert(follow(s, r, hi as nat) is Some);
        lemma_follow_compose(s, r, lo as nat, (hi - lo) as nat);
        assert(lo as nat + (hi - lo) as nat == hi as nat);
        assert(follow(s, x, (hi - lo) as nat) == Some(x));
        assert(0 <= x < n);
        assert(has_cycle(s)) by {
            assert(follow(s, x, (hi - lo) as nat) == Some(x));
        }
    }
}

proof fn lemma_chain_stays(s: Seq<CurveDependency>, outside: Seq<usize>, r: int, k: nat)
    requires
        0 <= r < s.len(),
        !outside.contains(r as usize),
        forall|x: int| 0 <= x < s.len() && !outside.contains(x as usize) ==>
            match #[trigger] dependency_target(s, x) {
                Some(j) => !outside.contains(j as usize),
                None => false,
            },
    ensures
        follow(s, r, k) is Some,
        0 <= follow(s, r, k).unwrap() < s.len(),
        !outside.contains(follow(s, r, k).unwrap() as usize),
    decreases k,
{
    if k > 0 {
        lemma_chain_stays(s, outside, r, (k - 1) as nat);
        let j = follow(s, r, (k - 1) as nat).unwrap();
        lemma_target_in_range(s, j);
    }
}

// --- cycle detection ----------------------------------------------------------

/// The position of the specification keyed by `key`, the last one when
/// several share it.
fn find_last_index(specs: &[CurveDependency], key: RateIndex) -> (r: Option<usize>)
    ensures
        match r {
            Some(j) => last_index_of(specs@, key) == Some(j as int),
            None => last_index_of(specs@, key) is None,
        },
{
    let mut i = specs.len();
    proof {
        assert(specs@.subrange(0, specs@.len() as int) =~= specs@);
    }
    while i > 0
        invariant
            i <= specs.len(),
            last_index_of(specs@, key) == last_index_of(specs@.subrange(0, i as int), key),
        decreases i,
    {
        let sub = Ghost(specs@.subrange(0, i as int));
        if specs[i - 1].index == key {
            return Some(i - 1);
        }
        assert(sub@.drop_last() =~= specs@.subrange(0, i - 1));
        i = i - 1;
    }
    assert(specs@.subrange(0, 0) =~= Seq::<CurveDependency>::empty());
    None
}

/// The specification that `specs[i]` waits for, found as in the dependency map.
fn find_dependency(specs: &[CurveDependency], i: usize) -> (r: Option<usize>)
    requires
        i < specs.len(),
    ensures
        match r {
            Some(j) => dependency_target(specs@, i as int) == Some(j as int),
            None => dependency_target(specs@, i as int) is None,
        },
{
    match specs[i].discount_index {
        Some(d) => {
            if d != specs[i].index {
                find_last_index(specs, d)
            } else {
                None
            }
        },
        None => None,
    }
}

/// The depth-first walk from `node`. `path` is the chain of nodes on the
/// recursion stack, which ends in a node that depends on `node`.
fn has_cycle_dfs(
    node: usize,
    specs: &[CurveDependency],
    visited: &mut Vec<bool>,
    rec_stack: &mut Vec<bool>,
    Ghost(path): Ghost<Seq<int>>,
) -> (found: bool)
    requires
        node < specs.len(),
        old(visited).len() == specs.len(),
        old(rec_stack).len() == specs.len(),
        !old(visited)[node as int],
        forall|v: int| 0 <= v < specs.len() && old(rec_stack)[v] ==> old(visited)[v],
        forall|v: int| 0 <= v < specs.len() && old(visited)[v] && !old(rec_stack)[v]
            ==> chain_ends(specs@, v),
        forall|v: int| 0 <= v < specs.len() ==> (old(rec_stack)[v] <==> path.contains(v)),
        path.no_duplicates(),
        forall|t: int| 0 <= t < path.len() ==> 0 <= #[trigger] path[t] < specs.len(),
        path.len() > 0 ==> forall|t: int| 0 <= t < path.len() ==>
            #[trigger] follow(specs@, path[0], t as nat) == Some(path[t]),
        path.len() > 0 ==> follow(specs@, path[0], path.len()) == Some(node as int),
    ensures
        found ==> has_cycle(specs@),
        !found ==> {
            &&& final(visited).len() == specs.len()
            &&& final(rec_stack)@ == old(rec_stack)@
            &&& final(visited)[node as int]
            &&& chain_ends(specs@, node as int)
            &&& forall|v: int| 0 <= v < specs.len() && old(visited)[v] ==> final(visited)[v]
            &&& forall|v: int| 0 <= v < specs.len() && final(visited)[v] && !final(rec_stack)[v]
                ==> chain_ends(specs@, v)
        },
    decreases specs.len() - path.len(),
{
    let ghost s = specs@;
    let ghost new_path = path.push(node as int);
    proof {
        assert forall|p: int| 0 <= p < new_path.len() implies (new_path[p] as usize) < specs.len()
        by {}
        let as_usize = new_path.map_values(|v: int| v as usize);
        assert(as_usize.no_duplicates()) by {
            assert forall|a: int, b: int| 0 <= a < as_usize.len() && 0 <= b < as_usize.len() && a != b
                implies as_usize[a] != as_usize[b] by {
                if a < path.len() && b < path.len() {
                } else if a == path.len() {
                    assert(!old(rec_stack)[node as int]);
                    assert(!path.contains(node as int));
                    assert(path.contains(path[b]));
                } else {
                    assert(!path.contains(node as int));
                    assert(path.contains(path[a]));
                }
            }
        }
        lemma_distinct_below(as_usize, s.len());
    }
    visited.set(node, true);
    rec_stack.set(node, true);
    let ghost visited_entry = visited@;

    let next = find_dependency(specs, node);
    proof {
        lemma_target_in_range(s, node as int);
    }
    match next {
        Some(neighbor) => {
            proof {
                // the chain from the start of the path reaches the neighbour
                if path.len() > 0 {
                    lemma_follow_compose(s, path[0], path.len(), 1);
                    reveal_with_fuel(follow, 2);
                }
            }
            if !visited[neighbor] {
                proof {
                    assert forall|v: int| 0 <= v < s.len() implies (rec_stack[v] <==> new_path.contains(v)) by {
                        if v == node as int {
                            assert(new_path[path.len() as int] == v);
                        } else {
                            if path.contains(v) {
                                let t = choose|t: int| 0 <= t < path.len() && path[t] == v;
                                assert(new_path[t] == v);
                            }
                            if new_path.contains(v) {
                                let t = choose|t: int| 0 <= t < new_path.len() && new_path[t] == v;
                                assert(path[t] == v);
                            }
                        }
                    }
                    assert(new_path.no_duplicates()) by {
                        assert forall|a: int, b: int| 0 <= a < new_path.len() && 0 <= b < new_path.len() && a != b
                            implies new_path[a] != new_path[b] by {
                            if a < path.len() && b < path.len() {
                            } else if a == path.len() {
                                assert(path.contains(path[b]));
                            } else {
                                assert(path.contains(path[a]));
                            }
                        }
                    }
                    if path.len() > 0 {
                        assert forall|t: int| 0 <= t < new_path.len() implies
                            #[trigger] follow(s, new_path[0], t as nat) == Some(new_path[t]) by {
                            if t < path.len() {
                                assert(follow(s, path[0], t as nat) == Some(path[t]));
                            }
                        }
                        assert(follow(s, path[0], path.len() + 1) == Some(neighbor as int));
                        assert(new_path.len() == path.len() + 1);
                    } else {
                        assert(new_path[0] == node as int);
                        assert forall|t: int| 0 <= t < new_path.len() implies
                            #[trigger] follow(s, new_path[0], t as nat) == Some(new_path[t]) by {
                            assert(t == 0);
                        }
                        reveal_with_fuel(follow, 2);
                        assert(follow(s, node as int, 1) == Some(neighbor as int));
                    }
                }
                let found = has_cycle_dfs(neighbor, specs, visited, rec_stack, Ghost(new_path));
                if found {
                    return true;
                }
                proof {
                    lemma_ends_through(s, node as int, neighbor as int);
                }
            } else if rec_stack[neighbor] {
                proof {
                    // the neighbour is on the current path: a cycle closes
                    let v = neighbor as int;
                    if v == node as int {
                        assert(false);
                    } else {
                        assert(rec_stack@ == old(rec_stack)@.update(node as int, true));
                        assert(old(rec_stack)[v]);
                        assert(path.contains(v));
                        let t = choose|t: int| 0 <= t < path.len() && path[t] == v;
                        assert(follow(s, path[0], t as nat) == Some(v));
                        assert(follow(s, path[0], path.len() + 1) == Some(v));
                        lemma_follow_compose(s, path[0], t as nat, (path.len() + 1 - t) as nat);
                        assert(t as nat + (path.len() + 1 - t) as nat == path.len() + 1);
                        assert(follow(s, v, (path.len() + 1 - t) as nat) == Some(v));
                        assert(has_cycle(s));
                    }
                }
                return true;
            } else {
                proof {
                    lemma_ends_through(s, node as int, neighbor as int);
                }
            }
        },
        None => {
            proof {
                reveal_with_fuel(follow, 2);
                assert(follow(s, node as int, 1) is None);
            }
        },
    }
    rec_stack.set(node, false);
    proof {
        assert(rec_stack@ =~= old(rec_stack)@);
    }
    false
}

proof fn lemma_ends_through(s: Seq<CurveDependency>, i: int, j: int)
    requires
        dependency_target(s, i) == Some(j),
        chain_ends(s, j),
    ensures
        chain_ends(s, i),
{
    let k = choose|k: nat| #[trigger] follow(s, j, k) is None;
    lemma_follow_step(s, i, j, k);
    assert(follow(s, i, k + 1) is None);
}

/// Checks that no curve depends, directly or through other curves, on itself.
pub fn check_circular_dependencies(specs: &[CurveDependency]) -> (r: Result<(), CurveEngineError>)
    ensures
        r is Ok <==> !has_cycle(specs@),
        r matches Err(e) ==> e is CircularDependency,
{
    let n = specs.len();
    let mut visited: Vec<bool> = Vec::new();
    let mut rec_stack: Vec<bool> = Vec::new();
    let mut k: usize = 0;
    while k < n
        invariant
            k <= n,
            n == specs.len(),
            visited.len() == k,
            rec_stack.len() == k,
            forall|v: int| 0 <= v < k ==> !visited[v] && !rec_stack[v],
        decreases n - k,
    {
        visited.push(false);
        rec_stack.push(false);
        k = k + 1;
    }
    let mut i: usize = 0;
    while i < n
        invariant
            i <= n,
            n == specs.len(),
            visited.len() == n,
            rec_stack.len() == n,
            forall|v: int| 0 <= v < n ==> !rec_stack[v],
            forall|v: int| 0 <= v < i ==> visited[v],
            forall|v: int| 0 <= v < n && visited[v] ==> chain_ends(specs@, v),
        decreases n - i,
    {
        if !visited[i] {
            let ghost empty = Seq::<int>::empty();
            proof {
                assert forall|v: int| 0 <= v < n implies (rec_stack[v] <==> empty.contains(v)) by {}
            }
            let found = has_cycle_dfs(i, specs, &mut visited, &mut rec_stack, Ghost(empty));
            if found {
                return Err(CurveEngineError::CircularDependency);
            }
        }
        i = i + 1;
    }
    proof {
        if has_cycle(specs@) {
            let (v, k) = choose|v: int, k: nat| 0 <= v < specs@.len() && k >= 1
                && #[trigger] follow(specs@, v, k) == Some(v);
            assert(chain_ends(specs@, v));
            let m = choose|m: nat| #[trigger] follow(specs@, v, m) is None;
            lemma_cycle_never_ends(specs@, v, k, m);
            assert(false);
        }
    }
    Ok(())
}


// --- build order ----------------------------------------------------------------

/// Along a chain of dependencies, positions in a dependencies-first order decrease.
proof fn lemma_order_decreases(s: Seq<CurveDependency>, order: Seq<usize>, v: int, m: nat, p: int, q: int)
    requires
        is_permutation(order, s.len() as int),
        dependencies_first(s, order),
        s.len() <= usize::MAX,
        0 <= v < s.len(),
        m >= 1,
        follow(s, v, m) is Some,
        0 <= p < order.len(),
        0 <= q < order.len(),
        order[p] as int == v,
        order[q] as int == follow(s, v, m).unwrap(),
    ensures
        q < p,
    decreases m,
{
    let n = s.len() as int;
    if m == 1 {
        reveal_with_fuel(follow, 2);
        let w = follow(s, v, 1).unwrap();
        assert(dependency_target(s, order[p] as int) == Some(w));
        let q2 = choose|q2: int| 0 <= q2 < p && order[q2] == w;
        assert(order[q2] == order[q]);
    } else {
        let m1 = (m - 1) as nat;
        if follow(s, v, m1) is None {
            lemma_follow_none_stays(s, v, m1, m);
        }
        let u = follow(s, v, m1).unwrap();
        lemma_follow_in_range(s, v, m1);
        assert(order.contains(u as usize));
        let pu = choose|pu: int| 0 <= pu < order.len() && order[pu] == u as usize;
        lemma_order_decreases(s, order, v, m1, p, pu);
        assert(follow(s, v, m) == dependency_target(s, u));
        let w = follow(s, v, m).unwrap();
        assert(dependency_target(s, order[pu] as int) == Some(w));
        let q2 = choose|q2: int| 0 <= q2 < pu && order[q2] == w;
        assert(order[q2] == order[q]);
    }
}

/// A graph whose nodes can be listed with every node after its dependency has no cycle.
proof fn lemma_ordered_is_acyclic(s: Seq<CurveDependency>, order: Seq<usize>)
    requires
        is_permutation(order, s.len() as int),
        dependencies_first(s, order),
        s.len() <= usize::MAX,
    ensures
        !has_cycle(s),
{
    if has_cycle(s) {
        let (v, k) = choose|v: int, k: nat| 0 <= v < s.len() && k >= 1 && #[trigger] follow(s, v, k) == Some(v);
        assert(order.contains(v as usize));
        let p = choose|p: int| 0 <= p < order.len() && order[p] == v as usize;
        lemma_order_decreases(s, order, v, k, p, p);
    }
}

/// In-degree of a node while the nodes of `done` are built: one while the
/// curve it waits for is not yet built.
spec fn pending(s: Seq<CurveDependency>, done: Seq<usize>, v: int) -> usize {
    match dependency_target(s, v) {
        Some(j) => if done.contains(j as usize) { 0 } else { 1 },
        None => 0,
    }
}

/// The positions below `k` of the curves that wait for no other curve, in
/// ascending order.
pub open spec fn roots_below(s: Seq<CurveDependency>, k: int) -> Seq<usize>
    decreases k,
{
    if k <= 0 {
        Seq::empty()
    } else {
        let prev = roots_below(s, k - 1);
        if dependency_target(s, k - 1) is None {
            prev.push((k - 1) as usize)
        } else {
            prev
        }
    }
}

/// The positions below `k` of the curves that wait for curve `v`, in
/// ascending order.
pub open spec fn waiting_below(s: Seq<CurveDependency>, v: int, k: int) -> Seq<usize>
    decreases k,
{
    if k <= 0 {
        Seq::empty()
    } else {
        let prev = waiting_below(s, v, k - 1);
        if dependency_target(s, k - 1) == Some(v) {
            prev.push((k - 1) as usize)
        } else {
            prev
        }
    }
}

/// At most `fuel` steps of Kahn's algorithm with the ready curves on a
/// stack, from the stack `stack` and the curves `done` ordered so far:
/// each step takes the curve on top of the stack, appends it to the order,
/// and pushes the curves that wait for it, in ascending position. The
/// result is the order when the stack runs empty or the steps run out.
pub open spec fn kahn_steps(s: Seq<CurveDependency>, stack: Seq<usize>, done: Seq<usize>, fuel: nat) -> Seq<usize>
    decreases fuel,
{
    if fuel == 0 || stack.len() == 0 {
        done
    } else {
        let v = stack.last();
        kahn_steps(s, stack.drop_last() + waiting_below(s, v as int, s.len() as int), done.push(v), (fuel - 1) as nat)
    }
}

/// The build order: Kahn's algorithm with the ready curves on a stack
/// (last in, first out), starting from the curves that wait for no other
/// curve in ascending position.
pub open spec fn kahn_order(s: Seq<CurveDependency>) -> Seq<usize> {
    kahn_steps(s, roots_below(s, s.len() as int), Seq::empty(), s.len())
}

/// Determines the build order by topological sort (Kahn's algorithm, with
/// the ready nodes kept on a stack): every curve comes after the curve it
/// discounts on.
pub fn determine_build_order(specs: &[CurveDependency]) -> (r: Result<Vec<usize>, CurveEngineError>)
    requires
        dependency_keys_unique(specs@),
    ensures
        r is Ok <==> !has_cycle(specs@),
        r matches Ok(order) ==> order@ == kahn_order(specs@)
            && is_permutation(order@, specs.len() as int)
            && dependencies_first(specs@, order@),
        r matches Err(e) ==> e is CircularDependency,
{
    broadcast use vstd::seq_lib::group_seq_properties;
    let ghost s = specs@;
    let n = specs.len();
    let mut in_degree: Vec<usize> = Vec::new();
    let mut queue: Vec<usize> = Vec::new();
    let mut i: usize = 0;
    while i < n
        invariant
            n == specs.len(),
            s == specs@,
            i <= n,
            in_degree.len() == i,
            forall|v: int| 0 <= v < i ==> in_degree[v] == pending(s, Seq::empty(), v),
            queue@.no_duplicates(),
            forall|p: int| 0 <= p < queue.len() ==> queue[p] < i,
            forall|v: int| 0 <= v < i ==> (in_degree[v] == 0 <==> queue@.contains(v as usize)),
            queue@ == roots_below(s, i as int),
        decreases n - i,
    {
        let d: usize = if find_dependency(specs, i).is_some() { 1 } else { 0 };
        in_degree.push(d);
        let ghost q_before = queue@;
        if d == 0 {
            proof {
                assert(!queue@.contains(i));
            }
            queue.push(i);
        }
        proof {
            assert forall|v: int| 0 <= v < i + 1 implies (in_degree[v] == 0 <==> queue@.contains(v as usize)) by {
                lemma_push_contains(q_before, i, v as usize);
            }
            assert(queue@ =~= roots_below(s, i + 1));
        }
        i = i + 1;
    }
    let mut result: Vec<usize> = Vec::new();
    loop
        invariant
            n == specs.len(),
            s == specs@,
            dependency_keys_unique(s),
            in_degree.len() == n,
            result@.no_duplicates(),
            queue@.no_duplicates(),
            forall|p: int| 0 <= p < result.len() ==> result[p] < n,
            forall|p: int| 0 <= p < queue.len() ==> queue[p] < n,
            forall|v: usize| #[trigger] queue@.contains(v) ==> !result@.contains(v),
            forall|v: int| 0 <= v < n ==> in_degree[v] == pending(s, result@, v),
            forall|v: int| 0 <= v < n && !result@.contains(v as usize)
                ==> (in_degree[v] == 0 <==> queue@.contains(v as usize)),
            dependencies_first(s, result@),
            result.len() <= n,
            kahn_steps(s, queue@, result@, (n - result.len()) as nat) == kahn_order(s),
        ensures
            result@ == kahn_order(s),
            queue.len() == 0,
            in_degree.len() == n,
            result@.no_duplicates(),
            forall|p: int| 0 <= p < result.len() ==> result[p] < n,
            forall|v: int| 0 <= v < n && !result@.contains(v as usize)
                ==> (in_degree[v] == 0 <==> queue@.contains(v as usize)),
            forall|v: int| 0 <= v < n ==> in_degree[v] == pending(s, result@, v),
            dependencies_first(s, result@),
        decreases n - result.len(),
    {
        proof {
            lemma_distinct_below(result@, n as nat);
        }
        let ghost q0 = queue@;
        match queue.pop() {
            None => {
                proof {
                    assert(q0.len() == 0);
                }
                break;
            },
            Some(node) => {
                let ghost done = result@;
                let ghost rest = queue@;
                proof {
                    assert(q0 == rest.push(node));
                    assert(q0[q0.len() - 1] == node);
                    assert(q0.contains(node));
                    assert forall|v: usize| rest.contains(v) implies q0.contains(v) && v != node by {
                        let t = choose|t: int| 0 <= t < rest.len() && rest[t] == v;
                        assert(q0[t] == v);
                    }
                    assert(q0.last() == node);
                    assert(q0.drop_last() == rest);
                }
                result.push(node);
                let ghost now = result@;
                proof {
                    assert(now == done.push(node));
                    assert(!done.contains(node));
                    assert(now.no_duplicates()) by {
                        assert forall|a: int, b: int| 0 <= a < now.len() && 0 <= b < now.len() && a != b
                            implies now[a] != now[b] by {
                            if a < done.len() && b < done.len() {
                            } else if a == done.len() {
                                assert(done.contains(done[b]));
                            } else {
                                assert(done.contains(done[a]));
                            }
                        }
                    }
                    // the node's own dependency is already built
                    assert(in_degree[node as int] == 0);
                    lemma_target_in_range(s, node as int);
                    assert forall|p: int| 0 <= p < now.len() implies match #[trigger] dependency_target(s, now[p] as int) {
                        Some(j) => exists|q: int| 0 <= q < p && now[q] == j,
                        None => true,
                    } by {
                        if p < done.len() {
                            assert(now[p] == done[p]);
                            if let Some(j) = dependency_target(s, done[p] as int) {
                                let q = choose|q: int| 0 <= q < p && done[q] == j;
                                assert(now[q] == j);
                            }
                        } else {
                            assert(now[p] == node);
                            if let Some(j) = dependency_target(s, node as int) {
                                assert(done.contains(j as usize));
                                let q = choose|q: int| 0 <= q < done.len() && done[q] == j as usize;
                                assert(now[q] == j);
                            }
                        }
                    }
                    assert forall|v: usize| #[trigger] queue@.contains(v) implies !now.contains(v) by {
                        assert(rest.contains(v));
                        assert(q0.contains(v) && v != node);
                        assert(!done.contains(v));
                    }
                    lemma_distinct_below(now, n as nat);
                    assert(rest + waiting_below(s, node as int, 0) =~= rest);
                    assert(kahn_steps(s, q0, done, (n - done.len()) as nat)
                        == kahn_steps(s, rest + waiting_below(s, node as int, n as int), now, (n - now.len()) as nat));
                }
                proof {
                    assert forall|v: int| 0 <= v < n && !now.contains(v as usize)
                        implies (in_degree[v] == 0 <==> queue@.contains(v as usize)) by {
                        lemma_push_contains(done, node, v as usize);
                        lemma_push_contains(rest, node, v as usize);
                    }
                }
                let key = specs[node].index;
                let mut k: usize = 0;
                while k < n
                    invariant
                        n == specs.len(),
                        s == specs@,
                        dependency_keys_unique(s),
                        k <= n,
                        node < n,
                        key == s[node as int].index,
                        in_degree.len() == n,
                        result@ == now,
                        now == done.push(node),
                        !done.contains(node),
                        now.no_duplicates(),
                        dependencies_first(s, now),
                        forall|p: int| 0 <= p < now.len() ==> now[p] < n,
                        queue@.no_duplicates(),
                        forall|p: int| 0 <= p < queue.len() ==> queue[p] < n,
                        forall|v: usize| #[trigger] queue@.contains(v) ==> !now.contains(v),
                        forall|v: int| 0 <= v < n ==> in_degree[v] == if v < k {
                            pending(s, now, v)
                        } else {
                            pending(s, done, v)
                        },
                        forall|v: int| 0 <= v < n && !now.contains(v as usize)
                            ==> (in_degree[v] == 0 <==> queue@.contains(v as usize)),
                        now.len() <= n,
                        queue@ == rest + waiting_below(s, node as int, k as int),
                        kahn_steps(s, rest + waiting_below(s, node as int, n as int), now, (n - now.len()) as nat)
                            == kahn_order(s),
                    decreases n - k,
                {
                    proof {
                        lemma_target_in_range(s, k as int);
                        if let Some(j) = dependency_target(s, k as int) {
                            if j != node as int {
                                assert(now.contains(j as usize) == done.contains(j as usize)) by {
                                    if now.contains(j as usize) {
                                        let t = choose|t: int| 0 <= t < now.len() && now[t] == j as usize;
                                        if t < done.len() {
                                            assert(done[t] == j as usize);
                                        }
                                    }
                                    if done.contains(j as usize) {
                                        let t = choose|t: int| 0 <= t < done.len() && done[t] == j as usize;
                                        assert(now[t] == j as usize);
                                    }
                                }
                            } else {
                                assert(now[done.len() as int] == node);
                            }
                        }
                    }
                    let waits_on_node = match specs[k].discount_index {
                        Some(d) => d == key && d != specs[k].index,
                        None => false,
                    };
                    proof {
                        if waits_on_node {
                            assert(dependency_key(s, k as int) == Some(s[node as int].index));
                            let j = dependency_target(s, k as int).unwrap();
                            lemma_last_index_of(s, s[node as int].index);
                            assert(j == node as int);
                        } else {
                            if dependency_target(s, k as int) == Some(node as int) {
                                assert(dependency_key(s, k as int) == Some(s[node as int].index));
                            }
                        }
                    }
                    if waits_on_node {
                        proof {
                            // the curve waiting on `node` was not built before it
                            if done.contains(k) {
                                let p = choose|p: int| 0 <= p < done.len() && done[p] == k;
                                assert(now[p] == k);
                                assert(dependency_target(s, now[p] as int) == Some(node as int));
                                let q = choose|q: int| 0 <= q < p && now[q] == node;
                                assert(done[q] == node);
                                assert(done.contains(node));
                            }
                            assert(!now.contains(k)) by {
                                if now.contains(k) {
                                    let t = choose|t: int| 0 <= t < now.len() && now[t] == k;
                                    if t < done.len() {
                                        assert(done.contains(k));
                                    }
                                }
                            }
                        }
                        let deg = in_degree[k] - 1;
                        assert(deg == 0);
                        in_degree.set(k, deg);
                        let ghost q_before = queue@;
                        if deg == 0 {
                            proof {
                                assert(!queue@.contains(k));
                            }
                            queue.push(k);
                            proof {
                                assert forall|v: usize| #[trigger] queue@.contains(v) implies !now.contains(v) by {
                                    lemma_push_contains(q_before, k, v);
                                }
                                assert forall|v: int| 0 <= v < n && !now.contains(v as usize)
                                    implies (in_degree[v] == 0 <==> queue@.contains(v as usize)) by {
                                    lemma_push_contains(q_before, k, v as usize);
                                }
                            }
                        }
                    }
                    proof {
                        assert(queue@ =~= rest + waiting_below(s, node as int, k + 1));
                    }
                    k = k + 1;
                }
            },
        }
    }
    proof {
        lemma_distinct_below(result@, n as nat);
    }
    if result.len() != n {
        proof {
            let r = lemma_missing_below(result@, n as nat);
            assert forall|x: int| 0 <= x < s.len() && !result@.contains(x as usize) implies
                match #[trigger] dependency_target(s, x) {
                    Some(j) => !result@.contains(j as usize),
                    None => false,
                } by {
                assert(in_degree[x] != 0);
            }
            lemma_closed_set_has_cycle(s, result@, r as int);
        }
        return Err(CurveEngineError::CircularDependency);
    }
    proof {
        lemma_ordered_is_acyclic(s, result@);
    }
    Ok(result)
}



// ---------------------------------------------------------------------------
// Assembling the curves of a dependency-ordered build
// ---------------------------------------------------------------------------

/// The curve bootstrapped for a specification, if there is one.
pub open spec fn built_curve<C>(x: Option<Result<C, BootstrapError>>) -> Option<C> {
    match x {
        Some(Ok(c)) => Some(c),
        _ => None,
    }
}

/// The bootstrap error of the first specification in build order, from
/// position `p` on, whose bootstrap failed.
pub open spec fn first_failure<C>(b: Seq<Option<Result<C, BootstrapError>>>, order: Seq<usize>, p: int) -> Option<BootstrapError>
    decreases order.len() - p,
{
    if p < 0 || p >= order.len() {
        None
    } else {
        match b[order[p] as int] {
            Some(Err(e)) => Some(e),
            _ => first_failure(b, order, p + 1),
        }
    }
}

/// The position in build order, from `p` on, of the first built curve that discounts on itself.
pub open spec fn first_discount<C>(s: Seq<CurveDependency>, b: Seq<Option<Result<C, BootstrapError>>>, order: Seq<usize>, p: int) -> Option<int>
    decreases order.len() - p,
{
    if p < 0 || p >= order.len() {
        None
    } else if built_curve(b[order[p] as int]) is Some && self_discounting(s[order[p] as int]) {
        Some(p)
    } else {
        first_discount(s, b, order, p + 1)
    }
}

/// The forward curves of the first `p` positions of the build order, by tenor.
pub open spec fn forward_entries<C>(s: Seq<CurveDependency>, b: Seq<Option<Result<C, BootstrapError>>>, order: Seq<usize>, p: int) -> Seq<(Tenor, C)>
    decreases p,
{
    if p <= 0 {
        Seq::empty()
    } else {
        let prev = forward_entries(s, b, order, p - 1);
        let i = order[p - 1] as int;
        match (built_curve(b[i]), s[i].tenor) {
            (Some(c), Some(t)) => prev.push((t, c)),
            _ => prev,
        }
    }
}

/// The curves of the first `p` positions of the build order, by index.
pub open spec fn index_entries<C>(s: Seq<CurveDependency>, b: Seq<Option<Result<C, BootstrapError>>>, order: Seq<usize>, p: int) -> Seq<(RateIndex, C)>
    decreases p,
{
    if p <= 0 {
        Seq::empty()
    } else {
        let prev = index_entries(s, b, order, p - 1);
        let i = order[p - 1] as int;
        match built_curve(b[i]) {
            Some(c) => prev.push((s[i].index, c)),
            None => prev,
        }
    }
}

/// What building the curves in `order` gives, where `b[i]` is the outcome
/// of bootstrapping specification `i` (none when it has no instruments):
/// the first failure in order is the error; otherwise forward curves by
/// tenor and curves by index (later ones replacing earlier ones), and as
/// discount curve the first built curve that discounts on itself, or, when
/// there is none, some built curve with the SOFR index.
pub open spec fn assembled<C: Clone>(
    s: Seq<CurveDependency>,
    b: Seq<Option<Result<C, BootstrapError>>>,
    order: Seq<usize>,
    r: Result<CurveSet<C>, CurveEngineError>,
) -> bool {
    match first_failure(b, order, 0) {
        Some(e) => r == Err::<CurveSet<C>, CurveEngineError>(CurveEngineError::Bootstrap(e)),
        None => r matches Ok(set) && {
            let by_index = entries_map(index_entries(s, b, order, order.len() as int));
            &&& set.forwards() == entries_map(forward_entries(s, b, order, order.len() as int))
            &&& set.by_index().dom() == by_index.dom()
            &&& forall|k: RateIndex| #[trigger] by_index.contains_key(k) ==> cloned(by_index[k], set.by_index()[k])
            &&& match first_discount(s, b, order, 0) {
                Some(q) => cloned(built_curve(b[order[q] as int]).unwrap(), set.discount())
                    && set.discount_index_spec() == Some(s[order[q] as int].index),
                None => set.discount_index_spec() == Some(RateIndex::Sofr)
                    && exists|i: int| 0 <= i < b.len() && (#[trigger] built_curve(b[i])) is Some && cloned(built_curve(b[i]).unwrap(), set.discount()),
            }
        },
    }
}

/// Builds the curve set of a multi-curve build from the outcome of
/// bootstrapping each specification (`None` for one without instruments):
/// rejects circular dependencies, walks the curves in dependency order,
/// stops at the first failed bootstrap, and files each built curve by index
/// and, if it has one, by tenor.
pub fn build_with_dependencies<C: Clone>(
    specs: &[CurveDependency],
    bootstrapped: Vec<Option<Result<C, BootstrapError>>>,
) -> (r: Result<CurveSet<C>, CurveEngineError>)
    requires
        bootstrapped@.len() == specs@.len(),
        !has_cycle(specs@) ==> dependency_keys_unique(specs@),
        !has_cycle(specs@) ==> exists|i: int| 0 <= i < specs@.len() && (#[trigger] bootstrapped@[i]) is Some,
    ensures
        has_cycle(specs@) ==> (r matches Err(e) && e is CircularDependency),
        !has_cycle(specs@) ==> assembled(specs@, bootstrapped@, kahn_order(specs@), r),
        !has_cycle(specs@) ==> is_permutation(kahn_order(specs@), specs@.len() as int)
            && dependencies_first(specs@, kahn_order(specs@)),
{
    check_circular_dependencies(specs)?;
    let order = determine_build_order(specs)?;
    let ghost s = specs@;
    let ghost b = bootstrapped@;
    let n = order.len();
    let mut pending = bootstrapped;
    let mut forward_list: Vec<(Tenor, C)> = Vec::new();
    let mut index_list: Vec<(RateIndex, C)> = Vec::new();
    let mut discount_curve: Option<C> = None;
    let mut discount_index: Option<RateIndex> = None;
    let mut first_built: Option<C> = None;
    let ghost mut first_built_at: int = 0;
    let mut p: usize = 0;
    while p < n
        invariant
            n == order@.len(),
            n == s.len(),
            s == specs@,
            b.len() == s.len(),
            b == bootstrapped@,
            pending@.len() == b.len(),
            is_permutation(order@, n as int),
            dependencies_first(s, order@),
            order@ == kahn_order(s),
            !has_cycle(s),
            p <= n,
            forall|q: int| p <= q < n ==> pending@[#[trigger] order@[q] as int] == b[order@[q] as int],
            first_failure(b, order@, 0) == first_failure(b, order@, p as int),
            forward_list@ == forward_entries(s, b, order@, p as int),
            index_list@.len() == index_entries(s, b, order@, p as int).len(),
            forall|j: int| 0 <= j < index_list@.len() ==> (#[trigger] index_list@[j]).0 == index_entries(s, b, order@, p as int)[j].0
                && cloned(index_entries(s, b, order@, p as int)[j].1, index_list@[j].1),
            discount_curve is None ==> discount_index is None
                && first_discount(s, b, order@, 0) == first_discount(s, b, order@, p as int),
            discount_curve matches Some(d) ==> exists|q0: int| 0 <= q0 < p
                && first_discount(s, b, order@, 0) == Some(q0)
                && cloned(built_curve(b[order@[q0] as int]).unwrap(), d)
                && discount_index == Some(s[order@[q0] as int].index),
            first_built is None ==> forall|q: int| 0 <= q < p ==> built_curve(#[trigger] b[order@[q] as int]) is None,
            first_built matches Some(f) ==> (0 <= first_built_at < b.len()
                && built_curve(b[first_built_at]) is Some && cloned(built_curve(b[first_built_at]).unwrap(), f)),
        decreases n - p,
    {
        let idx = order[p];
        let mut slot: Option<Result<C, BootstrapError>> = None;
        proof {
            assert(order@.no_duplicates());
            assert forall|q: int| p < q < n implies order@[q] != idx by {
                assert(order@[q] != order@[p as int]);
            }
        }
        pending.set_and_swap(idx, &mut slot);
        assert(slot == b[idx as int]);
        match slot {
            None => {},
            Some(Err(e)) => {
                let r = Err(CurveEngineError::Bootstrap(e));
                proof {
                    assert(first_failure(b, order@, p as int) == Some(e));
                    assert(assembled(s, b, order@, r));
                    assert(is_permutation(order@, s.len() as int) && dependencies_first(s, order@));
                }
                return r;
            },
            Some(Ok(curve)) => {
                let dep = specs[idx];
                if dep.is_self_discounting() && discount_curve.is_none() {
                    discount_curve = Some(curve.clone());
                    discount_index = Some(dep.index);
                }
                if first_built.is_none() {
                    first_built = Some(curve.clone());
                    proof {
                        first_built_at = idx as int;
                    }
                }
                let copy = curve.clone();
                index_list.push((dep.index, copy));
                match dep.tenor {
                    Some(t) => {
                        forward_list.push((t, curve));
                    },
                    None => {},
                }
            },
        }
        proof {
            assert(index_entries(s, b, order@, p + 1) == match built_curve(b[idx as int]) {
                Some(c) => index_entries(s, b, order@, p as int).push((s[idx as int].index, c)),
                None => index_entries(s, b, order@, p as int),
            });
        }
        p = p + 1;
    }
    proof {
        assert(first_failure(b, order@, n as int) is None);
        lemma_entries_cloned(index_entries(s, b, order@, n as int), index_list@);
        assert(first_discount(s, b, order@, n as int) is None);
        if first_built is None {
            let i = choose|i: int| 0 <= i < s.len() && (#[trigger] b[i]) is Some;
            assert(order@.contains(i as usize));
            let q = choose|q: int| 0 <= q < order@.len() && order@[q] == i as usize;
            assert(built_curve(b[order@[q] as int]) is None);
            assert(first_failure(b, order@, 0) is None);
            lemma_no_failure_built(b, order@, q);
            assert(false);
        }
    }
    let final_discount = match discount_curve {
        Some(d) => d,
        None => match first_built {
            Some(f) => f,
            None => {
                proof {
                    assert(false);
                }
                return Err(CurveEngineError::CircularDependency);
            },
        },
    };
    let final_index = match discount_index {
        Some(i) => i,
        None => RateIndex::Sofr,
    };
    let set = CurveSet::with_indices(final_discount, final_index, forward_list, index_list);
    let r = Ok(set);
    proof {
        assert(assembled(s, b, order@, r));
    }
    r
}

/// With no failure in build order, a specification with an outcome was built.
proof fn lemma_no_failure_built<C>(b: Seq<Option<Result<C, BootstrapError>>>, order: Seq<usize>, q: int)
    requires
        0 <= q < order.len(),
        order[q] < b.len(),
        b[order[q] as int] is Some,
        first_failure(b, order, 0) is None,
    ensures
        built_curve(b[order[q] as int]) is Some,
{
    lemma_no_failure_from(b, order, 0, q);
}

proof fn lemma_no_failure_from<C>(b: Seq<Option<Result<C, BootstrapError>>>, order: Seq<usize>, p: int, q: int)
    requires
        0 <= p <= q < order.len(),
        first_failure(b, order, p) is None,
    ensures
        !(b[order[q] as int] matches Some(Err(_))),
    decreases q - p,
{
    if p < q {
        lemma_no_failure_from(b, order, p + 1, q);
    }
}

} // verus!
