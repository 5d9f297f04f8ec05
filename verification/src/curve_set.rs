//! The result of a multi-curve build: a discount curve, forward curves by
//! tenor and curves by rate index.
use vstd::prelude::*;
use crate::keyed::{
    entries_map, entry_keys, keys_unique, lemma_entries_absent, lemma_entries_dom,
    lemma_entries_len, lemma_entries_lookup, lemma_entries_update,
};
use crate::multi_curve::Tenor;
use crate::rate_index::RateIndex;
use crate::seq_facts::lemma_distinct_below;

verus! {

/// The position of a forward tenor among the five tenors.
pub open spec fn tenor_ordinal(t: Tenor) -> usize {
    match t {
        Tenor::Overnight => 0,
        Tenor::OneMonth => 1,
        Tenor::ThreeMonth => 2,
        Tenor::SixMonth => 3,
        Tenor::TwelveMonth => 4,
    }
}

/// The position of a rate index among the seven indices.
pub open spec fn index_ordinal(i: RateIndex) -> usize {
    match i {
        RateIndex::Sofr => 0,
        RateIndex::Tonar => 1,
        RateIndex::Estr => 2,
        RateIndex::Sonia => 3,
        RateIndex::Saron => 4,
        RateIndex::Euribor3M => 5,
        RateIndex::Euribor6M => 6,
    }
}

/// A list with distinct tenors has at most five entries.
proof fn lemma_tenor_entries_bounded<C>(s: Seq<(Tenor, C)>)
    requires
        keys_unique(s),
    ensures
        s.len() <= 5,
{
    let codes = s.map_values(|e: (Tenor, C)| tenor_ordinal(e.0));
    assert(codes.no_duplicates()) by {
        assert forall|i: int, j: int| 0 <= i < codes.len() && 0 <= j < codes.len() && i != j
            implies codes[i] != codes[j] by {
            if i < j {
                assert(s[i].0 != s[j].0);
            } else {
                assert(s[j].0 != s[i].0);
            }
        }
    }
    lemma_distinct_below(codes, 5);
}

/// A list with distinct indices has at most seven entries.
proof fn lemma_index_entries_bounded<C>(s: Seq<(RateIndex, C)>)
    requires
        keys_unique(s),
    ensures
        s.len() <= 7,
{
    let codes = s.map_values(|e: (RateIndex, C)| index_ordinal(e.0));
    assert(codes.no_duplicates()) by {
        assert forall|i: int, j: int| 0 <= i < codes.len() && 0 <= j < codes.len() && i != j
            implies codes[i] != codes[j] by {
            if i < j {
                assert(s[i].0 != s[j].0);
            } else {
                assert(s[j].0 != s[i].0);
            }
        }
    }
    lemma_distinct_below(codes, 7);
}

/// The position of `t` among the entries, if it is there.
fn find_tenor<C>(v: &Vec<(Tenor, C)>, t: Tenor) -> (r: Option<usize>)
    ensures
        r matches Some(p) ==> p < v@.len() && v@[p as int].0 == t,
        r is None ==> forall|i: int| 0 <= i < v@.len() ==> (#[trigger] v@[i]).0 != t,
{
    let mut i: usize = 0;
    while i < v.len()
        invariant
            i <= v@.len(),
            forall|j: int| 0 <= j < i ==> (#[trigger] v@[j]).0 != t,
        decreases v@.len() - i,
    {
        if v[i].0 == t {
            return Some(i);
        }
        i = i + 1;
    }
    None
}

/// The position of `index` among the entries, if it is there.
fn find_index<C>(v: &Vec<(RateIndex, C)>, index: RateIndex) -> (r: Option<usize>)
    ensures
        r matches Some(p) ==> p < v@.len() && v@[p as int].0 == index,
        r is None ==> forall|i: int| 0 <= i < v@.len() ==> (#[trigger] v@[i]).0 != index,
{
    let mut i: usize = 0;
    while i < v.len()
        invariant
            i <= v@.len(),
            forall|j: int| 0 <= j < i ==> (#[trigger] v@[j]).0 != index,
        decreases v@.len() - i,
    {
        if v[i].0 == index {
            return Some(i);
        }
        i = i + 1;
    }
    None
}

/// Sets the curve of `t`, replacing an earlier one.
fn put_tenor<C>(v: &mut Vec<(Tenor, C)>, t: Tenor, c: C)
    requires
        keys_unique(old(v)@),
    ensures
        keys_unique(final(v)@),
        entries_map(final(v)@) == entries_map(old(v)@).insert(t, c),
{
    match find_tenor(v, t) {
        Some(p) => {
            proof {
                lemma_entries_update(v@, p as int, c);
            }
            v.set(p, (t, c));
        },
        None => {
            let ghost before = v@;
            v.push((t, c));
            proof {
                assert(v@.drop_last() =~= before);
                assert forall|i: int, j: int| 0 <= i < j < v@.len() implies (#[trigger] v@[i]).0 != (#[trigger] v@[j]).0 by {
                    if j == v@.len() - 1 {
                        assert(before[i].0 != t);
                    } else {
                        assert(before[i].0 != before[j].0);
                    }
                }
            }
        },
    }
}

/// Sets the curve of `index`, replacing an earlier one.
fn put_index<C>(v: &mut Vec<(RateIndex, C)>, index: RateIndex, c: C)
    requires
        keys_unique(old(v)@),
    ensures
        keys_unique(final(v)@),
        entries_map(final(v)@) == entries_map(old(v)@).insert(index, c),
{
    match find_index(v, index) {
        Some(p) => {
            proof {
                lemma_entries_update(v@, p as int, c);
            }
            v.set(p, (index, c));
        },
        None => {
            let ghost before = v@;
            v.push((index, c));
            proof {
                assert(v@.drop_last() =~= before);
                assert forall|i: int, j: int| 0 <= i < j < v@.len() implies (#[trigger] v@[i]).0 != (#[trigger] v@[j]).0 by {
                    if j == v@.len() - 1 {
                        assert(before[i].0 != index);
                    } else {
                        assert(before[i].0 != before[j].0);
                    }
                }
            }
        },
    }
}

/// Entries with distinct tenors, later entries replacing earlier ones.
fn tenor_entries<C>(entries: Vec<(Tenor, C)>) -> (r: Vec<(Tenor, C)>)
    ensures
        keys_unique(r@),
        entries_map(r@) == entries_map(entries@),
{
    let ghost orig = entries@;
    let mut rest = entries;
    let mut out: Vec<(Tenor, C)> = Vec::new();
    let ghost mut k: int = 0;
    while rest.len() > 0
        invariant
            0 <= k <= orig.len(),
            rest@ == orig.skip(k),
            keys_unique(out@),
            entries_map(out@) == entries_map(orig.take(k)),
        decreases rest@.len(),
    {
        let e = rest.remove(0);
        proof {
            assert(orig.take(k + 1).drop_last() =~= orig.take(k));
            assert(orig.skip(k + 1) =~= orig.skip(k).remove(0));
        }
        put_tenor(&mut out, e.0, e.1);
        proof {
            k = k + 1;
        }
    }
    proof {
        assert(orig.take(k) =~= orig);
    }
    out
}

/// Entries with distinct indices, later entries replacing earlier ones.
fn index_entries<C>(entries: Vec<(RateIndex, C)>) -> (r: Vec<(RateIndex, C)>)
    ensures
        keys_unique(r@),
        entries_map(r@) == entries_map(entries@),
{
    let ghost orig = entries@;
    let mut rest = entries;
    let mut out: Vec<(RateIndex, C)> = Vec::new();
    let ghost mut k: int = 0;
    while rest.len() > 0
        invariant
            0 <= k <= orig.len(),
            rest@ == orig.skip(k),
            keys_unique(out@),
            entries_map(out@) == entries_map(orig.take(k)),
        decreases rest@.len(),
    {
        let e = rest.remove(0);
        proof {
            assert(orig.take(k + 1).drop_last() =~= orig.take(k));
            assert(orig.skip(k + 1) =~= orig.skip(k).remove(0));
        }
        put_index(&mut out, e.0, e.1);
        proof {
            k = k + 1;
        }
    }
    proof {
        assert(orig.take(k) =~= orig);
    }
    out
}

/// A set of curves from a multi-curve build.
#[derive(Debug)]
pub struct CurveSet<C> {
    discount_curve: C,
    forward_curves: Vec<(Tenor, C)>,
    index_curves: Vec<(RateIndex, C)>,
    discount_index: Option<RateIndex>,
}

impl<C> CurveSet<C> {
    #[verifier::type_invariant]
    spec fn distinct_keys(self) -> bool {
        keys_unique(self.forward_curves@) && keys_unique(self.index_curves@)
    }

    /// The discount curve.
    pub closed spec fn discount(self) -> C {
        self.discount_curve
    }

    /// The forward curves by tenor.
    pub closed spec fn forwards(self) -> Map<Tenor, C> {
        entries_map(self.forward_curves@)
    }

    /// The curves by rate index.
    pub closed spec fn by_index(self) -> Map<RateIndex, C> {
        entries_map(self.index_curves@)
    }

    /// The index of the discount curve, if known.
    pub closed spec fn discount_index_spec(self) -> Option<RateIndex> {
        self.discount_index
    }

    /// A set from a discount curve and forward curves by tenor (later
    /// entries for a tenor replace earlier ones), with no index curves.
    pub fn new(discount_curve: C, forward_curves: Vec<(Tenor, C)>) -> (r: Self)
        ensures
            r.discount() == discount_curve,
            r.forwards() == entries_map(forward_curves@),
            r.by_index() == Map::<RateIndex, C>::empty(),
            r.discount_index_spec() is None,
    {
        let forward_curves = tenor_entries(forward_curves);
        CurveSet { discount_curve, forward_curves, index_curves: Vec::new(), discount_index: None }
    }

    /// A set with a known discount index, forward curves by tenor and
    /// curves by index (later entries for a key replace earlier ones).
    pub fn with_indices(
        discount_curve: C,
        discount_index: RateIndex,
        forward_curves: Vec<(Tenor, C)>,
        index_curves: Vec<(RateIndex, C)>,
    ) -> (r: Self)
        ensures
            r.discount() == discount_curve,
            r.forwards() == entries_map(forward_curves@),
            r.by_index() == entries_map(index_curves@),
            r.discount_index_spec() == Some(discount_index),
    {
        let forward_curves = tenor_entries(forward_curves);
        let index_curves = index_entries(index_curves);
        CurveSet { discount_curve, forward_curves, index_curves, discount_index: Some(discount_index) }
    }

    /// A set of one curve, used for discounting and forwarding alike.
    pub fn single_curve(curve: C) -> (r: Self)
        ensures
            r.discount() == curve,
            r.forwards() == Map::<Tenor, C>::empty(),
            r.by_index() == Map::<RateIndex, C>::empty(),
            r.discount_index_spec() is None,
    {
        CurveSet { discount_curve: curve, forward_curves: Vec::new(), index_curves: Vec::new(), discount_index: None }
    }

    /// The discount curve.
    pub fn discount_curve(&self) -> (r: &C)
        ensures
            *r == self.discount(),
    {
        &self.discount_curve
    }

    /// The index of the discount curve, if known.
    pub fn discount_index(&self) -> (r: Option<RateIndex>)
        ensures
            r == self.discount_index_spec(),
    {
        self.discount_index
    }

    /// The forward curve of a tenor, or the discount curve when there is none.
    pub fn forward_curve(&self, tenor: Tenor) -> (r: &C)
        ensures
            *r == (if self.forwards().contains_key(tenor) { self.forwards()[tenor] } else { self.discount() }),
    {
        proof {
            use_type_invariant(self);
        }
        match find_tenor(&self.forward_curves, tenor) {
            Some(p) => {
                proof {
                    lemma_entries_lookup(self.forward_curves@, p as int);
                }
                &self.forward_curves[p].1
            },
            None => {
                proof {
                    lemma_entries_absent(self.forward_curves@, tenor);
                }
                &self.discount_curve
            },
        }
    }

    /// True when the set has a forward curve for the tenor.
    pub fn has_forward_curve(&self, tenor: Tenor) -> (r: bool)
        ensures
            r == self.forwards().contains_key(tenor),
    {
        proof {
            use_type_invariant(self);
        }
        match find_tenor(&self.forward_curves, tenor) {
            Some(p) => {
                proof {
                    lemma_entries_lookup(self.forward_curves@, p as int);
                }
                true
            },
            None => {
                proof {
                    lemma_entries_absent(self.forward_curves@, tenor);
                }
                false
            },
        }
    }

    /// The curve of an index: its own curve if it has one, else the discount
    /// curve if the index is the discount index, else none.
    pub fn curve_by_index(&self, index: RateIndex) -> (r: Option<&C>)
        ensures
            self.by_index().contains_key(index) ==> r == Some(&self.by_index()[index]),
            !self.by_index().contains_key(index) && self.discount_index_spec() == Some(index)
                ==> r == Some(&self.discount()),
            !self.by_index().contains_key(index) && self.discount_index_spec() != Some(index) ==> r is None,
    {
        proof {
            use_type_invariant(self);
        }
        match find_index(&self.index_curves, index) {
            Some(p) => {
                proof {
                    lemma_entries_lookup(self.index_curves@, p as int);
                }
                Some(&self.index_curves[p].1)
            },
            None => {
                proof {
                    lemma_entries_absent(self.index_curves@, index);
                }
                if self.discount_index == Some(index) {
                    Some(&self.discount_curve)
                } else {
                    None
                }
            },
        }
    }

    /// True when `curve_by_index` finds a curve for the index.
    pub fn has_curve_for_index(&self, index: RateIndex) -> (r: bool)
        ensures
            r == (self.by_index().contains_key(index) || self.discount_index_spec() == Some(index)),
    {
        proof {
            use_type_invariant(self);
        }
        match find_index(&self.index_curves, index) {
            Some(p) => {
                proof {
                    lemma_entries_lookup(self.index_curves@, p as int);
                }
                true
            },
            None => {
                proof {
                    lemma_entries_absent(self.index_curves@, index);
                }
                self.discount_index == Some(index)
            },
        }
    }

    /// The indices that have a curve: those of the index curves, and the
    /// discount index if known, each once.
    pub fn indices(&self) -> (r: Vec<RateIndex>)
        ensures
            r@.no_duplicates(),
            forall|i: RateIndex| r@.contains(i) <==> (self.by_index().contains_key(i) || self.discount_index_spec() == Some(i)),
    {
        proof {
            use_type_invariant(self);
            lemma_entries_len(self.index_curves@);
        }
        let mut out: Vec<RateIndex> = Vec::new();
        let mut k: usize = 0;
        while k < self.index_curves.len()
            invariant
                k <= self.index_curves@.len(),
                keys_unique(self.index_curves@),
                out@ == entry_keys(self.index_curves@).take(k as int),
            decreases self.index_curves@.len() - k,
        {
            out.push(self.index_curves[k].0);
            proof {
                assert(entry_keys(self.index_curves@).take(k + 1) =~= entry_keys(self.index_curves@).take(k as int).push(self.index_curves@[k as int].0));
            }
            k = k + 1;
        }
        proof {
            assert(entry_keys(self.index_curves@).take(k as int) =~= entry_keys(self.index_curves@));
            assert forall|i: RateIndex| out@.contains(i) <==> self.by_index().contains_key(i) by {
                assert(entry_keys(self.index_curves@).to_set().contains(i) <==> out@.contains(i));
            }
        }
        match self.discount_index {
            Some(d) => {
                let found = find_index(&self.index_curves, d);
                if let Some(p) = found {
                    proof {
                        lemma_entries_lookup(self.index_curves@, p as int);
                    }
                }
                if found.is_none() {
                    proof {
                        lemma_entries_absent(self.index_curves@, d);
                    }
                    let ghost before = out@;
                    out.push(d);
                    proof {
                        assert forall|i: RateIndex| out@.contains(i) <==> (before.contains(i) || i == d) by {
                            if out@.contains(i) && i != d {
                                let j = choose|j: int| 0 <= j < out@.len() && out@[j] == i;
                                assert(before[j] == i);
                            }
                            if before.contains(i) {
                                let j = choose|j: int| 0 <= j < before.len() && before[j] == i;
                                assert(out@[j] == i);
                            }
                            if i == d {
                                assert(out@[before.len() as int] == d);
                            }
                        }
                        assert forall|a: int, b: int| 0 <= a < out@.len() && 0 <= b < out@.len() && a != b
                            implies out@[a] != out@[b] by {
                            if a < before.len() && b < before.len() {
                                assert(before[a] != before[b]);
                            } else if a < before.len() {
                                assert(before.contains(before[a]));
                            } else {
                                assert(before.contains(before[b]));
                            }
                        }
                    }
                }
            },
            None => {},
        }
        out
    }

    /// The tenors that have a forward curve, each once.
    pub fn tenors(&self) -> (r: Vec<Tenor>)
        ensures
            r@.no_duplicates(),
            forall|t: Tenor| r@.contains(t) <==> self.forwards().contains_key(t),
    {
        proof {
            use_type_invariant(self);
            lemma_entries_len(self.forward_curves@);
        }
        let mut out: Vec<Tenor> = Vec::new();
        let mut k: usize = 0;
        while k < self.forward_curves.len()
            invariant
                k <= self.forward_curves@.len(),
                out@ == entry_keys(self.forward_curves@).take(k as int),
            decreases self.forward_curves@.len() - k,
        {
            out.push(self.forward_curves[k].0);
            proof {
                assert(entry_keys(self.forward_curves@).take(k + 1) =~= entry_keys(self.forward_curves@).take(k as int).push(self.forward_curves@[k as int].0));
            }
            k = k + 1;
        }
        proof {
            assert(entry_keys(self.forward_curves@).take(k as int) =~= entry_keys(self.forward_curves@));
            assert forall|t: Tenor| out@.contains(t) <==> self.forwards().contains_key(t) by {
                assert(entry_keys(self.forward_curves@).to_set().contains(t) <==> out@.contains(t));
            }
        }
        out
    }

    /// The number of forward curves.
    pub fn forward_curve_count(&self) -> (r: usize)
        ensures
            r == self.forwards().dom().len(),
    {
        proof {
            use_type_invariant(self);
            lemma_entries_len(self.forward_curves@);
        }
        self.forward_curves.len()
    }

    /// The number of curves: the discount curve, the forward curves and the index curves.
    pub fn total_curve_count(&self) -> (r: usize)
        ensures
            r == 1 + self.forwards().dom().len() + self.by_index().dom().len(),
    {
        proof {
            use_type_invariant(self);
            lemma_entries_len(self.forward_curves@);
            lemma_entries_len(self.index_curves@);
            lemma_tenor_entries_bounded(self.forward_curves@);
            lemma_index_entries_bounded(self.index_curves@);
        }
        1 + self.forward_curves.len() + self.index_curves.len()
    }

    /// True when the set holds only its discount curve.
    pub fn is_single_curve(&self) -> (r: bool)
        ensures
            r == (self.forwards().dom().len() == 0 && self.by_index().dom().len() == 0),
    {
        proof {
            use_type_invariant(self);
            lemma_entries_len(self.forward_curves@);
            lemma_entries_len(self.index_curves@);
        }
        self.forward_curves.len() == 0 && self.index_curves.len() == 0
    }

    /// Sets the curve of an index, replacing an earlier one.
    pub fn add_index_curve(&mut self, index: RateIndex, curve: C)
        ensures
            final(self).by_index() == old(self).by_index().insert(index, curve),
            final(self).forwards() == old(self).forwards(),
            final(self).discount() == old(self).discount(),
            final(self).discount_index_spec() == old(self).discount_index_spec(),
    {
        proof {
            use_type_invariant(&*self);
        }
        let mut curves: Vec<(RateIndex, C)> = Vec::new();
        core::mem::swap(&mut curves, &mut self.index_curves);
        put_index(&mut curves, index, curve);
        self.index_curves = curves;
    }
}

impl<C: Clone> CurveSet<C> {
    /// A set of one curve, known by its index: the curve discounts, and a
    /// clone of it is the curve of the index.
    pub fn single_curve_with_index(curve: C, index: RateIndex) -> (r: Self)
        ensures
            r.discount() == curve,
            r.forwards() == Map::<Tenor, C>::empty(),
            r.by_index().dom() == set![index],
            cloned(curve, r.by_index()[index]),
            r.discount_index_spec() == Some(index),
    {
        let copy = curve.clone();
        let mut index_curves: Vec<(RateIndex, C)> = Vec::new();
        index_curves.push((index, copy));
        proof {
            assert(index_curves@.drop_last() =~= Seq::<(RateIndex, C)>::empty());
            assert(entries_map(index_curves@) == entries_map(Seq::<(RateIndex, C)>::empty()).insert(index, copy));
            assert(entries_map(index_curves@).dom() =~= set![index]);
        }
        CurveSet { discount_curve: curve, forward_curves: Vec::new(), index_curves, discount_index: Some(index) }
    }
}

impl<C: Clone> Clone for CurveSet<C> {
    /// A set with clones of the same curves under the same keys.
    fn clone(&self) -> (r: Self)
        ensures
            cloned(self.discount(), r.discount()),
            r.forwards().dom() == self.forwards().dom(),
            forall|t: Tenor| #[trigger] r.forwards().contains_key(t) ==> cloned(self.forwards()[t], r.forwards()[t]),
            r.by_index().dom() == self.by_index().dom(),
            forall|i: RateIndex| #[trigger] r.by_index().contains_key(i) ==> cloned(self.by_index()[i], r.by_index()[i]),
            r.discount_index_spec() == self.discount_index_spec(),
    {
        proof {
            use_type_invariant(self);
        }
        let mut forward_curves: Vec<(Tenor, C)> = Vec::new();
        let mut k: usize = 0;
        while k < self.forward_curves.len()
            invariant
                k <= self.forward_curves@.len(),
                keys_unique(self.forward_curves@),
                forward_curves@.len() == k,
                forall|j: int| 0 <= j < k ==> (#[trigger] forward_curves@[j]).0 == self.forward_curves@[j].0
                    && cloned(self.forward_curves@[j].1, forward_curves@[j].1),
            decreases self.forward_curves@.len() - k,
        {
            let c = self.forward_curves[k].1.clone();
            forward_curves.push((self.forward_curves[k].0, c));
            k = k + 1;
        }
        let mut index_curves: Vec<(RateIndex, C)> = Vec::new();
        let mut k: usize = 0;
        while k < self.index_curves.len()
            invariant
                k <= self.index_curves@.len(),
                keys_unique(self.index_curves@),
                index_curves@.len() == k,
                forall|j: int| 0 <= j < k ==> (#[trigger] index_curves@[j]).0 == self.index_curves@[j].0
                    && cloned(self.index_curves@[j].1, index_curves@[j].1),
            decreases self.index_curves@.len() - k,
        {
            let c = self.index_curves[k].1.clone();
            index_curves.push((self.index_curves[k].0, c));
            k = k + 1;
        }
        proof {
            assert(keys_unique(forward_curves@)) by {
                assert forall|i: int, j: int| 0 <= i < j < forward_curves@.len()
                    implies (#[trigger] forward_curves@[i]).0 != (#[trigger] forward_curves@[j]).0 by {
                    assert(self.forward_curves@[i].0 != self.forward_curves@[j].0);
                }
            }
            assert(keys_unique(index_curves@)) by {
                assert forall|i: int, j: int| 0 <= i < j < index_curves@.len()
                    implies (#[trigger] index_curves@[i]).0 != (#[trigger] index_curves@[j]).0 by {
                    assert(self.index_curves@[i].0 != self.index_curves@[j].0);
                }
            }
            lemma_entries_dom(forward_curves@);
            lemma_entries_dom(self.forward_curves@);
            lemma_entries_dom(index_curves@);
            lemma_entries_dom(self.index_curves@);
            assert(entries_map(forward_curves@).dom() =~= entries_map(self.forward_curves@).dom()) by {
                assert forall|t: Tenor| entries_map(forward_curves@).contains_key(t) implies entries_map(self.forward_curves@).contains_key(t) by {
                    let i = choose|i: int| 0 <= i < forward_curves@.len() && (#[trigger] forward_curves@[i]).0 == t;
                    assert(self.forward_curves@[i].0 == t);
                }
                assert forall|t: Tenor| entries_map(self.forward_curves@).contains_key(t) implies entries_map(forward_curves@).contains_key(t) by {
                    let i = choose|i: int| 0 <= i < self.forward_curves@.len() && (#[trigger] self.forward_curves@[i]).0 == t;
                    assert(forward_curves@[i].0 == t);
                }
            }
            assert(entries_map(index_curves@).dom() =~= entries_map(self.index_curves@).dom()) by {
                assert forall|t: RateIndex| entries_map(index_curves@).contains_key(t) implies entries_map(self.index_curves@).contains_key(t) by {
                    let i = choose|i: int| 0 <= i < index_curves@.len() && (#[trigger] index_curves@[i]).0 == t;
                    assert(self.index_curves@[i].0 == t);
                }
                assert forall|t: RateIndex| entries_map(self.index_curves@).contains_key(t) implies entries_map(index_curves@).contains_key(t) by {
                    let i = choose|i: int| 0 <= i < self.index_curves@.len() && (#[trigger] self.index_curves@[i]).0 == t;
                    assert(index_curves@[i].0 == t);
                }
            }
            assert forall|t: Tenor| #[trigger] entries_map(forward_curves@).contains_key(t)
                implies cloned(entries_map(self.forward_curves@)[t], entries_map(forward_curves@)[t]) by {
                let i = choose|i: int| 0 <= i < forward_curves@.len() && (#[trigger] forward_curves@[i]).0 == t;
                lemma_entries_lookup(forward_curves@, i);
                lemma_entries_lookup(self.forward_curves@, i);
            }
            assert forall|t: RateIndex| #[trigger] entries_map(index_curves@).contains_key(t)
                implies cloned(entries_map(self.index_curves@)[t], entries_map(index_curves@)[t]) by {
                let i = choose|i: int| 0 <= i < index_curves@.len() && (#[trigger] index_curves@[i]).0 == t;
                lemma_entries_lookup(index_curves@, i);
                lemma_entries_lookup(self.index_curves@, i);
            }
        }
        CurveSet {
            discount_curve: self.discount_curve.clone(),
            forward_curves,
            index_curves,
            discount_index: self.discount_index,
        }
    }
}

/// What a curve set answers for an index after a curve was set for it:
/// that curve, whatever the set held before.
pub proof fn lemma_index_curve_read_after_write<C>(before: CurveSet<C>, after: CurveSet<C>, index: RateIndex, curve: C, other: RateIndex)
    requires
        after.by_index() == before.by_index().insert(index, curve),
        after.discount_index_spec() == before.discount_index_spec(),
        after.discount() == before.discount(),
    ensures
        after.by_index().contains_key(index) && after.by_index()[index] == curve,
        other != index ==> (after.by_index().contains_key(other) == before.by_index().contains_key(other)
            && (before.by_index().contains_key(other) ==> after.by_index()[other] == before.by_index()[other])),
{
}

} // verus!
