//! An ordered key-value store over `u128` keys, the in-memory counterpart of the
//! contract's keyed storage. Composite keys `(a, b)` of two `u64` are encoded as
//! `a * 2^64 + b`, which keeps their lexicographic order.
use vstd::prelude::*;

verus! {

/// `2^64`, the weight of the first component of a composite key.
pub open spec fn pair_base() -> nat {
    0x1_0000_0000_0000_0000
}

/// The key of the pair `(a, b)`.
pub open spec fn pair_key(a: u64, b: u64) -> u128 {
    (a * pair_base() + b) as u128
}

/// Entries whose keys increase strictly from first to last.
pub open spec fn strictly_sorted<T>(s: Seq<(u128, T)>) -> bool {
    forall|i: int, j: int| 0 <= i < j < s.len() ==> s[i].0 < s[j].0
}

/// Whether some entry has key `k`.
pub open spec fn has_key<T>(s: Seq<(u128, T)>, k: u128) -> bool {
    exists|i: int| 0 <= i < s.len() && s[i].0 == k
}

/// The map that a list of entries with distinct keys describes.
pub open spec fn entries_map<T>(s: Seq<(u128, T)>) -> Map<u128, T> {
    Map::new(
        |k: u128| has_key(s, k),
        |k: u128| s[choose|i: int| 0 <= i < s.len() && s[i].0 == k].1,
    )
}

/// Keys between `lo` and `hi`; `lo` itself counts only when `lo_strict` is false.
pub open spec fn in_window(k: u128, lo: u128, lo_strict: bool, hi: u128) -> bool {
    &&& if lo_strict {
        k > lo
    } else {
        k >= lo
    }
    &&& k <= hi
}

/// The predicate on entries of lying in a window.
pub open spec fn window_pred<T>(lo: u128, lo_strict: bool, hi: u128) -> spec_fn((u128, T)) -> bool {
    |e: (u128, T)| in_window(e.0, lo, lo_strict, hi)
}

/// The first `n` elements of `s`, or all of them when there are fewer.
pub open spec fn first_n<A>(s: Seq<A>, n: nat) -> Seq<A> {
    if n < s.len() {
        s.take(n as int)
    } else {
        s
    }
}

/// The entries of `s` whose keys lie in the window, in increasing key order.
pub open spec fn window_entries<T>(s: Seq<(u128, T)>, lo: u128, lo_strict: bool, hi: u128) -> Seq<
    (u128, T),
> {
    s.filter(window_pred(lo, lo_strict, hi))
}

/// Ordered store of entries with distinct keys.
pub struct OrderedMap<T> {
    entries: Vec<(u128, T)>,
}

impl<T> View for OrderedMap<T> {
    type V = Seq<(u128, T)>;

    /// The entries in increasing key order.
    closed spec fn view(&self) -> Seq<(u128, T)> {
        self.entries@
    }
}

impl<T> OrderedMap<T> {
    /// The entries are kept in strictly increasing key order.
    #[verifier::type_invariant]
    pub open spec fn sorted(self) -> bool {
        strictly_sorted(self@)
    }

    /// The contents as a map from keys to values.
    pub open spec fn as_map(&self) -> Map<u128, T> {
        entries_map(self@)
    }

    /// An empty store.
    pub fn new() -> (m: Self)
        ensures
            m@ == Seq::<(u128, T)>::empty(),
            m.as_map() == Map::<u128, T>::empty(),
    {
        let m = OrderedMap { entries: Vec::new() };
        assert(m.as_map() =~= Map::<u128, T>::empty());
        m
    }

    /// Index of the first entry whose key is at least `k`.
    fn lower_bound(&self, k: u128) -> (idx: usize)
        ensures
            idx <= self@.len(),
            forall|j: int| 0 <= j < idx ==> self@[j].0 < k,
            idx < self@.len() ==> self@[idx as int].0 >= k,
    {
        proof {
            use_type_invariant(self);
        }
        let mut i: usize = 0;
        while i < self.entries.len()
            invariant
                i <= self.entries@.len(),
                forall|j: int| 0 <= j < i ==> self.entries@[j].0 < k,
            decreases self.entries@.len() - i,
        {
            if self.entries[i].0 >= k {
                return i;
            }
            i = i + 1;
        }
        i
    }

    proof fn lemma_lookup(s: Seq<(u128, T)>, idx: int, k: u128)
        requires
            strictly_sorted(s),
            0 <= idx <= s.len(),
            forall|j: int| 0 <= j < idx ==> s[j].0 < k,
            idx < s.len() ==> s[idx].0 >= k,
        ensures
            has_key(s, k) <==> (idx < s.len() && s[idx].0 == k),
            (idx < s.len() && s[idx].0 == k) ==> entries_map(s)[k] == s[idx].1,
    {
        if has_key(s, k) {
            let w = choose|i: int| 0 <= i < s.len() && s[i].0 == k;
            assert(w == idx) by {
                if w < idx {
                } else if w > idx {
                    assert(s[idx].0 < s[w].0);
                }
            }
        }
    }

    /// The value stored under `k`, if any.
    pub fn get(&self, k: u128) -> (r: Option<&T>)
        ensures
            match r {
                Some(v) => self.as_map().contains_key(k) && *v == self.as_map()[k],
                None => !self.as_map().contains_key(k),
            },
    {
        let idx = self.lower_bound(k);
        proof {
            use_type_invariant(self);
            Self::lemma_lookup(self@, idx as int, k);
        }
        if idx < self.entries.len() && self.entries[idx].0 == k {
            Some(&self.entries[idx].1)
        } else {
            None
        }
    }

    /// Whether a value is stored under `k`.
    pub fn contains(&self, k: u128) -> (r: bool)
        ensures
            r == self.as_map().contains_key(k),
    {
        let idx = self.lower_bound(k);
        proof {
            use_type_invariant(self);
            Self::lemma_lookup(self@, idx as int, k);
        }
        idx < self.entries.len() && self.entries[idx].0 == k
    }

    proof fn lemma_replace(old_s: Seq<(u128, T)>, idx: int, k: u128, v: T)
        requires
            strictly_sorted(old_s),
            0 <= idx < old_s.len(),
            old_s[idx].0 == k,
        ensures
            strictly_sorted(old_s.update(idx, (k, v))),
            entries_map(old_s.update(idx, (k, v))) == entries_map(old_s).insert(k, v),
    {
        let new_s = old_s.update(idx, (k, v));
        let m_old = entries_map(old_s);
        let m_new = entries_map(new_s);
        assert forall|q: u128| m_new.contains_key(q) == m_old.insert(k, v).contains_key(q) by {
            if has_key(old_s, q) {
                let w = choose|i: int| 0 <= i < old_s.len() && old_s[i].0 == q;
                assert(new_s[w].0 == q);
            }
            if has_key(new_s, q) {
                let w = choose|i: int| 0 <= i < new_s.len() && new_s[i].0 == q;
                assert(old_s[w].0 == q);
            }
        }
        assert forall|q: u128| #[trigger] m_new.contains_key(q) implies m_new[q] == m_old.insert(
            k,
            v,
        )[q] by {
            let w = choose|i: int| 0 <= i < new_s.len() && new_s[i].0 == q;
            if q != k {
                let u = choose|i: int| 0 <= i < old_s.len() && old_s[i].0 == q;
                assert(old_s[w].0 == q);
                if u < w {
                    assert(old_s[u].0 < old_s[w].0);
                } else if u > w {
                    assert(old_s[w].0 < old_s[u].0);
                }
            } else {
                if w < idx {
                    assert(new_s[w].0 < new_s[idx].0);
                } else if w > idx {
                    assert(new_s[idx].0 < new_s[w].0);
                }
            }
        }
        assert(m_new =~= m_old.insert(k, v));
    }

    proof fn lemma_insert_at(old_s: Seq<(u128, T)>, idx: int, k: u128, v: T)
        requires
            strictly_sorted(old_s),
            0 <= idx <= old_s.len(),
            forall|j: int| 0 <= j < idx ==> old_s[j].0 < k,
            idx < old_s.len() ==> old_s[idx].0 > k,
        ensures
            strictly_sorted(old_s.insert(idx, (k, v))),
            entries_map(old_s.insert(idx, (k, v))) == entries_map(old_s).insert(k, v),
    {
        let new_s = old_s.insert(idx, (k, v));
        assert forall|i: int, j: int| 0 <= i < j < new_s.len() implies new_s[i].0 < new_s[j].0 by {
            if i < idx && j > idx {
                assert(old_s[i].0 < k);
                if j - 1 > idx {
                    assert(old_s[idx].0 < old_s[j - 1].0);
                }
            } else if i == idx && j > idx {
                if j - 1 > idx {
                    assert(old_s[idx].0 < old_s[j - 1].0);
                }
            }
        }
        let m_old = entries_map(old_s);
        let m_new = entries_map(new_s);
        assert forall|q: u128| m_new.contains_key(q) == m_old.insert(k, v).contains_key(q) by {
            if has_key(old_s, q) {
                let w = choose|i: int| 0 <= i < old_s.len() && old_s[i].0 == q;
                if w < idx {
                    assert(new_s[w].0 == q);
                } else {
                    assert(new_s[w + 1].0 == q);
                }
            }
            if has_key(new_s, q) && q != k {
                let w = choose|i: int| 0 <= i < new_s.len() && new_s[i].0 == q;
                if w < idx {
                    assert(old_s[w].0 == q);
                } else {
                    assert(w != idx);
                    assert(old_s[w - 1].0 == q);
                }
            }
            if q == k {
                assert(new_s[idx].0 == k);
            }
        }
        assert forall|q: u128| #[trigger] m_new.contains_key(q) implies m_new[q] == m_old.insert(
            k,
            v,
        )[q] by {
            let w = choose|i: int| 0 <= i < new_s.len() && new_s[i].0 == q;
            if q == k {
                if w < idx {
                    assert(new_s[w].0 < new_s[idx].0);
                } else if w > idx {
                    assert(new_s[idx].0 < new_s[w].0);
                }
            } else {
                let u = choose|i: int| 0 <= i < old_s.len() && old_s[i].0 == q;
                let w2 = if w < idx { w } else { w - 1 };
                assert(old_s[w2].0 == q);
                if u < w2 {
                    assert(old_s[u].0 < old_s[w2].0);
                } else if u > w2 {
                    assert(old_s[w2].0 < old_s[u].0);
                }
            }
        }
        assert(m_new =~= m_old.insert(k, v));
    }

    /// Stores `v` under `k`, replacing any value stored there.
    pub fn insert(&mut self, k: u128, v: T)
        ensures
            final(self).as_map() == old(self).as_map().insert(k, v),
    {
        let idx = self.lower_bound(k);
        proof {
            use_type_invariant(&*self);
            Self::lemma_lookup(self@, idx as int, k);
        }
        let ghost old_entries = self.entries@;
        let mut entries: Vec<(u128, T)> = Vec::new();
        std::mem::swap(&mut entries, &mut self.entries);
        if idx < entries.len() && entries[idx].0 == k {
            proof {
                Self::lemma_replace(old_entries, idx as int, k, v);
            }
            entries.set(idx, (k, v));
        } else {
            proof {
                Self::lemma_insert_at(old_entries, idx as int, k, v);
            }
            entries.insert(idx, (k, v));
        }
        self.entries = entries;
    }

    /// Removes whatever is stored under `k`.
    pub fn remove(&mut self, k: u128)
        ensures
            final(self).as_map() == old(self).as_map().remove(k),
    {
        let idx = self.lower_bound(k);
        proof {
            use_type_invariant(&*self);
            Self::lemma_lookup(self@, idx as int, k);
        }
        if idx < self.entries.len() && self.entries[idx].0 == k {
            let ghost old_entries = self.entries@;
            let mut entries: Vec<(u128, T)> = Vec::new();
            std::mem::swap(&mut entries, &mut self.entries);
            let _removed = entries.remove(idx);
            let ghost new_entries = entries@;
            assert(strictly_sorted(new_entries));
            proof {
                let m_old = entries_map(old_entries);
                let m_new = entries_map(new_entries);
                assert forall|q: u128| m_new.contains_key(q) == m_old.remove(k).contains_key(q) by {
                    if q != k && has_key(old_entries, q) {
                        let w = choose|i: int| 0 <= i < old_entries.len() && old_entries[i].0 == q;
                        if w < idx {
                            assert(new_entries[w].0 == q);
                        } else {
                            assert(w != idx);
                            assert(new_entries[w - 1].0 == q);
                        }
                    }
                    if has_key(new_entries, q) {
                        let w = choose|i: int| 0 <= i < new_entries.len() && new_entries[i].0 == q;
                        if w < idx {
                            assert(old_entries[w].0 == q);
                        } else {
                            assert(old_entries[w + 1].0 == q);
                        }
                    }
                }
                assert forall|q: u128| #[trigger] m_new.contains_key(q) implies m_new[q]
                    == m_old.remove(k)[q] by {
                    let w = choose|i: int| 0 <= i < new_entries.len() && new_entries[i].0 == q;
                    let u = choose|i: int| 0 <= i < old_entries.len() && old_entries[i].0 == q;
                    if w < idx {
                        assert(old_entries[w].0 == q);
                        assert(u == w);
                    } else {
                        assert(old_entries[w + 1].0 == q);
                        assert(u == w + 1);
                    }
                }
                assert(m_new =~= m_old.remove(k));
            }
            self.entries = entries;
        } else {
            assert(old(self).as_map().remove(k) =~= old(self).as_map());
        }
    }
    /// The number of entries.
    pub fn len(&self) -> (n: usize)
        ensures
            n == self@.len(),
            strictly_sorted(self@),
    {
        proof {
            use_type_invariant(self);
        }
        self.entries.len()
    }

    /// The entry at position `i` in key order.
    pub fn entry_at(&self, i: usize) -> (e: &(u128, T))
        requires
            i < self@.len(),
        ensures
            *e == self@[i as int],
    {
        &self.entries[i]
    }

    /// The keys of the first `limit` entries whose keys lie in the window, in
    /// increasing order.
    pub fn window_keys(&self, lo: u128, lo_strict: bool, hi: u128, limit: usize) -> (r: Vec<u128>)
        ensures
            r@ == first_n(window_entries(self@, lo, lo_strict, hi), limit as nat).map_values(
                |e: (u128, T)| e.0,
            ),
    {
        let ghost pred = window_pred::<T>(lo, lo_strict, hi);
        let mut r: Vec<u128> = Vec::new();
        let mut i: usize = 0;
        proof {
            assert(self@.take(0).filter(pred) =~= Seq::<(u128, T)>::empty());
        }
        while i < self.entries.len()
            invariant
                i <= self.entries@.len(),
                self@ == self.entries@,
                pred == window_pred::<T>(lo, lo_strict, hi),
                r@ == first_n(self@.take(i as int).filter(pred), limit as nat).map_values(
                    |e: (u128, T)| e.0,
                ),
            decreases self.entries@.len() - i,
        {
            let ghost before = self@.take(i as int).filter(pred);
            let key = self.entries[i].0;
            proof {
                assert(self@.take(i + 1).drop_last() =~= self@.take(i as int));
                assert(self@.take(i + 1).last() == self@[i as int]);
                assert(self@[i as int].0 == key);
                assert(pred(self@[i as int]) == in_window(key, lo, lo_strict, hi));
                reveal_with_fuel(Seq::filter, 1);
            }
            if in_window_exec(key, lo, lo_strict, hi) {
                proof {
                    assert(self@.take(i + 1).filter(pred) == before.push(self@[i as int]));
                    lemma_first_n_push(before, self@[i as int], limit as nat);
                }
                if r.len() < limit {
                    proof {
                        lemma_first_n_len(before, limit as nat);
                    }
                    r.push(key);
                    proof {
                        let f = |e: (u128, T)| e.0;
                        assert(before.push(self@[i as int]).map_values(f) =~= before.map_values(f).push(key));
                        lemma_first_n_len(before, limit as nat);
                    }
                } else {
                    proof {
                        lemma_first_n_len(before, limit as nat);
                    }
                }
            } else {
                proof {
                    assert(self@.take(i + 1).filter(pred) == before);
                }
            }
            i = i + 1;
        }
        proof {
            assert(self@.take(self@.len() as int) =~= self@);
        }
        r
    }

    /// The first `limit` entries whose keys lie in the window, in increasing key order.
    pub fn window(&self, lo: u128, lo_strict: bool, hi: u128, limit: usize) -> (r: Vec<(u128, T)>)
        where
            T: Copy,
        ensures
            r@ == first_n(window_entries(self@, lo, lo_strict, hi), limit as nat),
    {
        let ghost pred = window_pred::<T>(lo, lo_strict, hi);
        let mut r: Vec<(u128, T)> = Vec::new();
        let mut i: usize = 0;
        proof {
            assert(self@.take(0).filter(pred) =~= Seq::<(u128, T)>::empty());
        }
        while i < self.entries.len()
            invariant
                i <= self.entries@.len(),
                self@ == self.entries@,
                pred == window_pred::<T>(lo, lo_strict, hi),
                r@ == first_n(self@.take(i as int).filter(pred), limit as nat),
            decreases self.entries@.len() - i,
        {
            let ghost before = self@.take(i as int).filter(pred);
            let e = self.entries[i];
            proof {
                assert(self@.take(i + 1).drop_last() =~= self@.take(i as int));
                assert(self@.take(i + 1).last() == self@[i as int]);
                assert(pred(self@[i as int]) == in_window(e.0, lo, lo_strict, hi));
                reveal_with_fuel(Seq::filter, 1);
                lemma_first_n_len(before, limit as nat);
            }
            if in_window_exec(e.0, lo, lo_strict, hi) {
                proof {
                    lemma_first_n_push(before, self@[i as int], limit as nat);
                }
                if r.len() < limit {
                    r.push(e);
                }
            }
            i = i + 1;
        }
        proof {
            assert(self@.take(self@.len() as int) =~= self@);
        }
        r
    }

    /// The number of entries whose keys lie in the window.
    pub fn count_window(&self, lo: u128, lo_strict: bool, hi: u128) -> (n: usize)
        ensures
            n == window_entries(self@, lo, lo_strict, hi).len(),
    {
        let ghost pred = window_pred::<T>(lo, lo_strict, hi);
        let mut n: usize = 0;
        let mut i: usize = 0;
        proof {
            assert(self@.take(0).filter(pred) =~= Seq::<(u128, T)>::empty());
        }
        while i < self.entries.len()
            invariant
                i <= self.entries@.len(),
                self@ == self.entries@,
                pred == window_pred::<T>(lo, lo_strict, hi),
                n == self@.take(i as int).filter(pred).len(),
                n <= i,
            decreases self.entries@.len() - i,
        {
            let key = self.entries[i].0;
            proof {
                assert(self@.take(i + 1).drop_last() =~= self@.take(i as int));
                assert(self@.take(i + 1).last() == self@[i as int]);
                assert(self@[i as int].0 == key);
                assert(pred(self@[i as int]) == in_window(key, lo, lo_strict, hi));
                reveal_with_fuel(Seq::filter, 1);
            }
            if in_window_exec(key, lo, lo_strict, hi) {
                n = n + 1;
            }
            i = i + 1;
        }
        proof {
            assert(self@.take(self@.len() as int) =~= self@);
        }
        n
    }
}

/// The key of the pair `(a, b)`.
pub fn pair_key_exec(a: u64, b: u64) -> (k: u128)
    ensures
        k == pair_key(a, b),
{
    proof {
        lemma_pair_key_bounds(a, b);
    }
    (a as u128) * 0x1_0000_0000_0000_0000u128 + (b as u128)
}

/// First component of a composite key.
pub open spec fn pair_high(k: u128) -> u64 {
    (k / 0x1_0000_0000_0000_0000u128) as u64
}

/// Second component of a composite key.
pub open spec fn pair_low(k: u128) -> u64 {
    (k % 0x1_0000_0000_0000_0000u128) as u64
}

/// The components of a composite key.
pub fn pair_parts(k: u128) -> (r: (u64, u64))
    ensures
        r == (pair_high(k), pair_low(k)),
        pair_key(r.0, r.1) == k,
{
    let hi = k / 0x1_0000_0000_0000_0000u128;
    let lo = k % 0x1_0000_0000_0000_0000u128;
    assert(hi < 0x1_0000_0000_0000_0000u128) by (nonlinear_arith)
        requires
            hi == k / 0x1_0000_0000_0000_0000u128,
    ;
    assert(k == hi * 0x1_0000_0000_0000_0000u128 + lo) by (nonlinear_arith)
        requires
            hi == k / 0x1_0000_0000_0000_0000u128,
            lo == k % 0x1_0000_0000_0000_0000u128,
    ;
    (hi as u64, lo as u64)
}

proof fn lemma_pair_key_bounds(a: u64, b: u64)
    ensures
        a * pair_base() + b <= u128::MAX,
{
    assert(a * 0x1_0000_0000_0000_0000int + b <= 0xffff_ffff_ffff_ffff_ffff_ffff_ffff_ffffint) by (nonlinear_arith)
        requires
            a <= 0xffff_ffff_ffff_ffff_int,
            b <= 0xffff_ffff_ffff_ffff_int,
    ;
}

/// Composite keys determine their components and order pairs lexicographically.
pub proof fn lemma_pair_key(a: u64, b: u64, c: u64, d: u64)
    ensures
        pair_high(pair_key(a, b)) == a,
        pair_low(pair_key(a, b)) == b,
        pair_key(a, b) < pair_key(c, d) <==> (a < c || (a == c && b < d)),
        pair_key(a, b) == pair_key(c, d) <==> (a == c && b == d),
{
    lemma_pair_key_bounds(a, b);
    lemma_pair_key_bounds(c, d);
    let k = a * 0x1_0000_0000_0000_0000int + b;
    assert(k / 0x1_0000_0000_0000_0000int == a && k % 0x1_0000_0000_0000_0000int == b) by (nonlinear_arith)
        requires
            k == a * 0x1_0000_0000_0000_0000int + b,
            0 <= b < 0x1_0000_0000_0000_0000int,
            0 <= a,
    ;
    assert((a * 0x1_0000_0000_0000_0000int + b < c * 0x1_0000_0000_0000_0000int + d) <==> (a < c || (a == c && b < d))) by (nonlinear_arith)
        requires
            0 <= b < 0x1_0000_0000_0000_0000int,
            0 <= d < 0x1_0000_0000_0000_0000int,
            0 <= a,
            0 <= c,
    ;
    assert((a * 0x1_0000_0000_0000_0000int + b == c * 0x1_0000_0000_0000_0000int + d) <==> (a == c && b == d)) by (nonlinear_arith)
        requires
            0 <= b < 0x1_0000_0000_0000_0000int,
            0 <= d < 0x1_0000_0000_0000_0000int,
            0 <= a,
            0 <= c,
    ;
}

/// A key lies in the window of all pairs starting with `a` exactly when its first
/// component is `a`.
pub proof fn lemma_prefix_window(k: u128, a: u64)
    ensures
        in_window(k, pair_key(a, 0), false, pair_key(a, u64::MAX)) <==> pair_high(k) == a,
        pair_key(pair_high(k), pair_low(k)) == k,
{
    let h = k / 0x1_0000_0000_0000_0000u128;
    let l = k % 0x1_0000_0000_0000_0000u128;
    assert(h < 0x1_0000_0000_0000_0000int && k == h * 0x1_0000_0000_0000_0000int + l && 0 <= l < 0x1_0000_0000_0000_0000int) by (nonlinear_arith)
        requires
            h == k / 0x1_0000_0000_0000_0000u128,
            l == k % 0x1_0000_0000_0000_0000u128,
            k <= u128::MAX,
    ;
    lemma_pair_key(h as u64, l as u64, a, 0);
    lemma_pair_key(h as u64, l as u64, a, u64::MAX);
}

/// In strictly sorted entries, the entry at `i` is what the map holds under its key,
/// and every key of the map is at some position.
pub proof fn lemma_entries_map_at<T>(s: Seq<(u128, T)>, i: int)
    requires
        strictly_sorted(s),
        0 <= i < s.len(),
    ensures
        entries_map(s).contains_key(s[i].0),
        entries_map(s)[s[i].0] == s[i].1,
{
    let k = s[i].0;
    assert(has_key(s, k));
    let w = choose|j: int| 0 <= j < s.len() && s[j].0 == k;
    if w < i {
        assert(s[w].0 < s[i].0);
    } else if w > i {
        assert(s[i].0 < s[w].0);
    }
}

/// Every entry of a window of strictly sorted entries is what the map holds under
/// its key.
pub proof fn lemma_window_in_map<T>(s: Seq<(u128, T)>, lo: u128, lo_strict: bool, hi: u128)
    requires
        strictly_sorted(s),
    ensures
        forall|i: int|
            0 <= i < window_entries(s, lo, lo_strict, hi).len() ==> {
                let e = #[trigger] window_entries(s, lo, lo_strict, hi)[i];
                entries_map(s).contains_key(e.0) && entries_map(s)[e.0] == e.1 && in_window(e.0, lo, lo_strict, hi)
            },
{
    let p = window_pred::<T>(lo, lo_strict, hi);
    let w = s.filter(p);
    assert forall|i: int| 0 <= i < w.len() implies entries_map(s).contains_key((#[trigger] w[i]).0) && entries_map(s)[w[i].0]
        == w[i].1 && in_window(w[i].0, lo, lo_strict, hi) by {
        s.lemma_filter_pred(p, i);
        assert(w.contains(w[i]));
        s.lemma_filter_contains_rev(p, w[i]);
        let j = choose|j: int| 0 <= j < s.len() && s[j] == w[i];
        lemma_entries_map_at(s, j);
    }
}

/// Executable form of [`in_window`].
pub fn in_window_exec(k: u128, lo: u128, lo_strict: bool, hi: u128) -> (r: bool)
    ensures
        r == in_window(k, lo, lo_strict, hi),
{
    let above = if lo_strict {
        k > lo
    } else {
        k >= lo
    };
    above && k <= hi
}

proof fn lemma_first_n_len<A>(s: Seq<A>, n: nat)
    ensures
        first_n(s, n).len() == if n < s.len() {
            n
        } else {
            s.len()
        },
{
}

proof fn lemma_first_n_push<A>(s: Seq<A>, x: A, n: nat)
    ensures
        s.len() >= n ==> first_n(s.push(x), n) == first_n(s, n),
        s.len() < n ==> first_n(s.push(x), n) == s.push(x),
{
    if s.len() >= n {
        assert(s.push(x).take(n as int) =~= first_n(s, n));
    }
}

/// Strictly sorted entries end with the largest key; dropping that entry removes just
/// that key from the map.
pub proof fn lemma_drop_last<T>(s: Seq<(u128, T)>)
    requires
        strictly_sorted(s),
        s.len() > 0,
    ensures
        strictly_sorted(s.drop_last()),
        entries_map(s).contains_key(s.last().0),
        entries_map(s)[s.last().0] == s.last().1,
        forall|k: u128| #[trigger] entries_map(s).contains_key(k) ==> k <= s.last().0,
        entries_map(s.drop_last()) == entries_map(s).remove(s.last().0),
{
    let n = s.len() - 1;
    let d = s.drop_last();
    lemma_entries_map_at(s, n);
    assert forall|k: u128| #[trigger] entries_map(s).contains_key(k) implies k <= s.last().0 by {
        let w = choose|i: int| 0 <= i < s.len() && s[i].0 == k;
        if w < n {
            assert(s[w].0 < s[n].0);
        }
    }
    let m = entries_map(s).remove(s.last().0);
    assert forall|q: u128| entries_map(d).contains_key(q) == m.contains_key(q) by {
        if has_key(s, q) && q != s.last().0 {
            let w = choose|i: int| 0 <= i < s.len() && s[i].0 == q;
            assert(d[w].0 == q);
        }
        if has_key(d, q) {
            let w = choose|i: int| 0 <= i < d.len() && d[i].0 == q;
            assert(s[w].0 == q);
            assert(s[w].0 < s[n].0);
        }
    }
    assert forall|q: u128| #[trigger] entries_map(d).contains_key(q) implies entries_map(d)[q] == m[q] by {
        let w = choose|i: int| 0 <= i < d.len() && d[i].0 == q;
        lemma_entries_map_at(d, w);
        lemma_entries_map_at(s, w);
    }
    assert(entries_map(d) =~= m);
}

/// Strictly sorted entries are determined by the map they hold.
pub proof fn lemma_sorted_unique<T>(s1: Seq<(u128, T)>, s2: Seq<(u128, T)>)
    requires
        strictly_sorted(s1),
        strictly_sorted(s2),
        entries_map(s1) == entries_map(s2),
    ensures
        s1 == s2,
    decreases s1.len(),
{
    if s1.len() == 0 {
        if s2.len() > 0 {
            lemma_drop_last(s2);
        }
        assert(s1 =~= s2);
    } else {
        lemma_drop_last(s1);
        if s2.len() == 0 {
            assert(entries_map(s2).contains_key(s1.last().0));
        }
        lemma_drop_last(s2);
        assert(s1.last().0 == s2.last().0);
        lemma_sorted_unique(s1.drop_last(), s2.drop_last());
        assert(s1 =~= s1.drop_last().push(s1.last()));
        assert(s2 =~= s2.drop_last().push(s2.last()));
    }
}

/// The number of entries in a window is that of the window without the last entry,
/// plus one when the last entry lies in the window.
pub proof fn lemma_window_len_step<T>(s: Seq<(u128, T)>, lo: u128, hi: u128)
    requires
        s.len() > 0,
    ensures
        window_entries(s, lo, false, hi).len() == window_entries(s.drop_last(), lo, false, hi).len() + (if in_window(
            s.last().0,
            lo,
            false,
            hi,
        ) {
            1int
        } else {
            0int
        }),
{
    reveal(Seq::filter);
    let p = window_pred::<T>(lo, false, hi);
    let sub = s.drop_last().filter(p);
    assert(s.filter(p) == if p(s.last()) {
        sub.push(s.last())
    } else {
        sub
    });
}

/// Storing a value under a key not yet present adds one entry to each window that
/// holds the key, and none to the others.
pub proof fn lemma_window_len_insert<T>(s: Seq<(u128, T)>, s2: Seq<(u128, T)>, k: u128, v: T, lo: u128, hi: u128)
    requires
        strictly_sorted(s),
        strictly_sorted(s2),
        !entries_map(s).contains_key(k),
        entries_map(s2) == entries_map(s).insert(k, v),
    ensures
        window_entries(s2, lo, false, hi).len() == window_entries(s, lo, false, hi).len() + (if in_window(k, lo, false, hi) {
            1int
        } else {
            0int
        }),
    decreases s2.len(),
{
    if s2.len() == 0 {
        assert(entries_map(s2).contains_key(k));
    }
    lemma_drop_last(s2);
    let last = s2.last().0;
    lemma_window_len_step(s2, lo, hi);
    if last == k {
        assert(entries_map(s) =~= entries_map(s2.drop_last()));
        lemma_sorted_unique(s, s2.drop_last());
    } else {
        assert(entries_map(s).contains_key(last));
        if s.len() == 0 {
            assert(!entries_map(s).contains_key(last));
        }
        lemma_drop_last(s);
        assert(entries_map(s2).contains_key(s.last().0));
        assert(s.last().0 == last);
        assert(entries_map(s2.drop_last()) =~= entries_map(s.drop_last()).insert(k, v));
        lemma_window_len_insert(s.drop_last(), s2.drop_last(), k, v, lo, hi);
        lemma_window_len_step(s, lo, hi);
    }
}

} // verus!
