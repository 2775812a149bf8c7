//! A saturating counter ledger: a total mapping from an enumerated key to an
//! unsigned count, default 0 for absent keys. Used for per-character condition
//! stacks and per-turn statistics.

use vstd::prelude::*;

verus! {

/// A key type usable in an [`EnumMap`]: a plain enumerated value whose
/// equality can be decided exactly.
pub trait LedgerKey: Sized + Copy {
    /// Decides whether two keys are the same.
    fn same(&self, other: &Self) -> (r: bool)
        ensures
            r == (self == other),
    ;
}

/// The mathematical value of a ledger entry shifted by a signed delta,
/// saturating at 0 below and at `usize::MAX` above.
pub open spec fn clamp_usize(x: int) -> usize {
    if x < 0 {
        0
    } else if x > usize::MAX {
        usize::MAX as usize
    } else {
        x as usize
    }
}

/// A ledger after incrementing the entry for `k` by `delta`, saturating.
pub open spec fn ledger_shift<K>(m: Map<K, usize>, k: K, delta: int) -> Map<K, usize> {
    m.insert(k, clamp_usize(m[k] + delta))
}

/// A counter decreased by one, floored at 0.
pub open spec fn dec_usize(v: usize) -> usize {
    if v > 0 {
        (v - 1) as usize
    } else {
        0
    }
}

/// A ledger after one decay tick: every entry is decreased by 1, floored at 0.
pub open spec fn ledger_decay<K>(m: Map<K, usize>) -> Map<K, usize> {
    Map::new(|k: K| true, |k: K| dec_usize(m[k]))
}

/// The all-zero ledger.
pub open spec fn ledger_empty<K>() -> Map<K, usize> {
    Map::new(|k: K| true, |k: K| 0usize)
}

/// The count recorded for `k` in an entry list: the value of the last entry
/// with key `k`, or 0 if there is none.
pub open spec fn count_in<K>(s: Seq<(K, usize)>, k: K) -> usize
    decreases s.len(),
{
    if s.len() == 0 {
        0
    } else if s.last().0 == k {
        s.last().1
    } else {
        count_in(s.drop_last(), k)
    }
}

/// A mapping from an enumerated key to a saturating count. Its mathematical
/// view is the total map from every key to its count (0 for absent keys).
#[derive(Debug)]
pub struct EnumMap<K> {
    entries: Vec<(K, usize)>,
}

impl<K> View for EnumMap<K> {
    type V = Map<K, usize>;

    closed spec fn view(&self) -> Map<K, usize> {
        Map::new(|k: K| true, |k: K| count_in(self.entries@, k))
    }
}

/// If no entry of `s` has key `k`, the recorded count for `k` is 0.
proof fn lemma_count_in_absent<K>(s: Seq<(K, usize)>, k: K)
    requires
        forall|i: int| 0 <= i < s.len() ==> (#[trigger] s[i]).0 != k,
    ensures
        count_in(s, k) == 0,
    decreases s.len(),
{
    if s.len() > 0 {
        lemma_count_in_absent(s.drop_last(), k);
    }
}

/// If the entries have pairwise-distinct keys and entry `i` has key `k`, the
/// recorded count for `k` is that entry's value.
proof fn lemma_count_in_found<K>(s: Seq<(K, usize)>, k: K, i: int)
    requires
        forall|i1: int, i2: int|
            0 <= i1 < i2 < s.len() ==> (#[trigger] s[i1]).0 != (#[trigger] s[i2]).0,
        0 <= i < s.len(),
        s[i].0 == k,
    ensures
        count_in(s, k) == s[i].1,
    decreases s.len(),
{
    if i == s.len() - 1 {
    } else {
        lemma_count_in_found(s.drop_last(), k, i);
    }
}

/// The recorded count for a key other than the last entry's key is unchanged
/// by dropping the last entry; counts after an update at one index change only
/// for that index's key.
proof fn lemma_count_in_update<K>(s: Seq<(K, usize)>, i: int, p: (K, usize), k: K)
    requires
        0 <= i < s.len(),
        p.0 == s[i].0,
        k != p.0,
    ensures
        count_in(s.update(i, p), k) == count_in(s, k),
    decreases s.len(),
{
    let t = s.update(i, p);
    if s.len() > 0 {
        if i == s.len() - 1 {
            assert(t.drop_last() =~= s.drop_last());
        } else {
            assert(t.drop_last() =~= s.drop_last().update(i, p));
            lemma_count_in_update(s.drop_last(), i, p, k);
        }
    }
}

/// Appending an entry changes the recorded count only for that entry's key.
proof fn lemma_count_in_push<K>(s: Seq<(K, usize)>, p: (K, usize), k: K)
    ensures
        count_in(s.push(p), k) == if p.0 == k {
            p.1
        } else {
            count_in(s, k)
        },
{
    assert(s.push(p).drop_last() =~= s);
}

/// Counts in entry lists of equal length, equal keys, and pointwise-decayed
/// values are the decayed counts of the original list.
proof fn lemma_count_in_decay<K>(s: Seq<(K, usize)>, t: Seq<(K, usize)>, k: K)
    requires
        s.len() == t.len(),
        forall|i: int| 0 <= i < s.len() ==> (#[trigger] t[i]).0 == s[i].0,
        forall|i: int| 0 <= i < s.len() ==> (#[trigger] t[i]).1 == dec_usize(s[i].1),
    ensures
        count_in(t, k) == dec_usize(count_in(s, k)),
    decreases s.len(),
{
    if s.len() > 0 {
        lemma_count_in_decay(s.drop_last(), t.drop_last(), k);
    }
}

impl<K> EnumMap<K> {
    /// Entry keys are pairwise distinct, so each key's count is well defined.
    #[verifier::type_invariant]
    closed spec fn wf(self) -> bool {
        forall|i1: int, i2: int|
            0 <= i1 < i2 < self.entries@.len() ==> (#[trigger] self.entries@[i1]).0 != (
            #[trigger] self.entries@[i2]).0
    }
}

impl<K: LedgerKey> EnumMap<K> {
    /// The position of the entry for `key`, if one exists.
    fn find(&self, key: &K) -> (r: Option<usize>)
        ensures
            match r {
                Some(i) => i < self.entries@.len() && self.entries@[i as int].0 == *key,
                None => forall|i: int|
                    0 <= i < self.entries@.len() ==> (#[trigger] self.entries@[i]).0 != *key,
            },
    {
        let n = self.entries.len();
        for i in 0..n
            invariant
                n == self.entries@.len(),
                forall|j: int| 0 <= j < i ==> (#[trigger] self.entries@[j]).0 != *key,
        {
            if self.entries[i].0.same(key) {
                return Some(i);
            }
        }
        None
    }

    /// The count recorded for `key`; 0 if the key is absent.
    pub fn get(&self, key: &K) -> (c: usize)
        ensures
            c == self@[*key],
    {
        proof {
            use_type_invariant(&*self);
        }
        match self.find(key) {
            Some(i) => {
                proof {
                    lemma_count_in_found(self.entries@, *key, i as int);
                }
                self.entries[i].1
            },
            None => {
                proof {
                    lemma_count_in_absent(self.entries@, *key);
                }
                0
            },
        }
    }

    /// Whether the key is present with a positive count.
    pub fn has(&self, key: &K) -> (r: bool)
        ensures
            r == (self@[*key] > 0),
    {
        self.get(key) > 0
    }

    /// This ledger with the count for `key` shifted by `increment`,
    /// saturating at 0 and at `usize::MAX`; all other counts are unchanged.
    pub fn with_incremented(self, key: K, increment: isize) -> (r: Self)
        ensures
            r@ == ledger_shift(self@, key, increment as int),
    {
        proof {
            use_type_invariant(&self);
        }
        let ghost m0 = self@;
        let v0: usize = self.get(&key);
        let v1: usize = if increment >= 0 {
            v0.saturating_add(increment as usize)
        } else {
            let magnitude = (-(increment as i128)) as usize;
            v0.saturating_sub(magnitude)
        };
        assert(v1 == clamp_usize(v0 + increment as int));
        let idx = self.find(&key);
        let ghost entries0 = self.entries@;
        let EnumMap { mut entries } = self;
        match idx {
            Some(i) => {
                entries[i] = (key, v1);
                let r = EnumMap { entries };
                proof {
                    lemma_count_in_found(r.entries@, key, i as int);
                    assert forall|k: K| k != key implies count_in(r.entries@, k) == m0[k] by {
                        lemma_count_in_update(entries0, i as int, (key, v1), k);
                    }
                    assert(r@ =~= ledger_shift(m0, key, increment as int));
                }
                r
            },
            None => {
                entries.push((key, v1));
                let r = EnumMap { entries };
                proof {
                    assert forall|k: K| true implies count_in(r.entries@, k) == ledger_shift(
                        m0,
                        key,
                        increment as int,
                    )[k] by {
                        lemma_count_in_push(entries0, (key, v1), k);
                        if k == key {
                            lemma_count_in_absent(entries0, key);
                        }
                    }
                    assert(r@ =~= ledger_shift(m0, key, increment as int));
                }
                r
            },
        }
    }

    /// Shifts the count for `key` by `increment`, saturating at 0 and at
    /// `usize::MAX`; all other counts are unchanged.
    pub fn increment(&mut self, key: K, increment: isize)
        ensures
            final(self)@ == ledger_shift(old(self)@, key, increment as int),
    {
        let mut tmp = EnumMap { entries: Vec::new() };
        core::mem::swap(self, &mut tmp);
        let mut shifted = tmp.with_incremented(key, increment);
        core::mem::swap(self, &mut shifted);
    }

    /// This ledger after one decay tick: every count decreased by 1, floored
    /// at 0.
    fn decayed(self) -> (r: Self)
        ensures
            r@ == ledger_decay(self@),
    {
        proof {
            use_type_invariant(&self);
        }
        let ghost m0 = self@;
        let ghost entries0 = self.entries@;
        let EnumMap { mut entries } = self;
        let n = entries.len();
        for i in 0..n
            invariant
                n == entries@.len(),
                entries0.len() == n,
                forall|j: int| 0 <= j < n ==> (#[trigger] entries@[j]).0 == entries0[j].0,
                forall|j: int|
                    0 <= j < i ==> (#[trigger] entries@[j]).1 == dec_usize(entries0[j].1),
                forall|j: int| i <= j < n ==> (#[trigger] entries@[j]).1 == entries0[j].1,
        {
            let (k, v) = entries[i];
            entries[i] = (k, v.saturating_sub(1));
        }
        let r = EnumMap { entries };
        proof {
            assert forall|k: K| true implies count_in(r.entries@, k) == ledger_decay(m0)[k] by {
                lemma_count_in_decay(entries0, r.entries@, k);
            }
            assert(r@ =~= ledger_decay(m0));
        }
        r
    }

    /// Whether this ledger records the same count as `other` for every key.
    pub fn ledger_eq(&self, other: &Self) -> (r: bool)
        ensures
            r == (self@ == other@),
    {
        proof {
            use_type_invariant(&*self);
            use_type_invariant(&*other);
        }
        let n = self.entries.len();
        for i in 0..n
            invariant
                n == self.entries@.len(),
                forall|j: int|
                    0 <= j < i ==> self@[(#[trigger] self.entries@[j]).0] == other@[self.entries@[j].0],
                forall|i1: int, i2: int|
                    0 <= i1 < i2 < self.entries@.len() ==> (#[trigger] self.entries@[i1]).0 != (
                    #[trigger] self.entries@[i2]).0,
        {
            let (k, v) = self.entries[i];
            proof {
                lemma_count_in_found(self.entries@, k, i as int);
            }
            if other.get(&k) != v {
                return false;
            }
        }
        let m = other.entries.len();
        for i in 0..m
            invariant
                m == other.entries@.len(),
                n == self.entries@.len(),
                forall|j: int|
                    0 <= j < n ==> self@[(#[trigger] self.entries@[j]).0] == other@[self.entries@[j].0],
                forall|j: int|
                    0 <= j < i ==> self@[(#[trigger] other.entries@[j]).0] == other@[other.entries@[j].0],
                forall|i1: int, i2: int|
                    0 <= i1 < i2 < other.entries@.len() ==> (#[trigger] other.entries@[i1]).0 != (
                    #[trigger] other.entries@[i2]).0,
        {
            let (k, v) = other.entries[i];
            proof {
                lemma_count_in_found(other.entries@, k, i as int);
            }
            if self.get(&k) != v {
                return false;
            }
        }
        proof {
            assert forall|k: K| true implies self@[k] == other@[k] by {
                if exists|j: int|
                    0 <= j < self.entries@.len() && (#[trigger] self.entries@[j]).0 == k {
                } else {
                    lemma_count_in_absent(self.entries@, k);
                    if exists|j: int|
                        0 <= j < other.entries@.len() && (#[trigger] other.entries@[j]).0 == k {
                    } else {
                        lemma_count_in_absent(other.entries@, k);
                    }
                }
            }
            assert(self@ =~= other@);
        }
        true
    }

    /// Decreases every count by 1, floored at 0 (one decay tick).
    pub fn decrement_all(&mut self)
        ensures
            final(self)@ == ledger_decay(old(self)@),
    {
        let mut tmp = EnumMap { entries: Vec::new() };
        core::mem::swap(self, &mut tmp);
        let mut ticked = tmp.decayed();
        core::mem::swap(self, &mut ticked);
    }
}

impl<K: LedgerKey> Default for EnumMap<K> {
    /// The empty ledger: every key has count 0.
    fn default() -> (r: Self)
        ensures
            r@ == ledger_empty::<K>(),
    {
        let r = EnumMap { entries: Vec::new() };
        proof {
            assert forall|k: K| true implies r@[k] == 0usize by {
                lemma_count_in_absent(r.entries@, k);
            }
            assert(r@ =~= ledger_empty::<K>());
        }
        r
    }
}

/// Incrementing a ledger entry by a non-negative `delta` and then by `-delta`
/// restores the original ledger exactly, provided the first increment did not
/// saturate at the ceiling (the floor cannot be hit on the way back).
pub proof fn lemma_ledger_round_trip<K>(m: Map<K, usize>, k: K, delta: int)
    requires
        m.dom() == Set::<K>::full(),
        0 <= delta,
        m[k] + delta <= usize::MAX,
    ensures
        ledger_shift(ledger_shift(m, k, delta), k, -delta) == m,
{
    assert(ledger_shift(ledger_shift(m, k, delta), k, -delta) =~= m);
}

/// Decay is idempotent at the floor: a zero entry stays at zero.
pub proof fn lemma_ledger_decay_zero<K>(m: Map<K, usize>, k: K)
    requires
        m[k] == 0,
    ensures
        ledger_decay(m)[k] == 0,
{
}

} // verus!
