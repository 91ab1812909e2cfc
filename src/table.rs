//! A sparse table of amounts: keys that were never written hold zero.

use vstd::prelude::*;

use crate::account::Key;

verus! {

/// The amount recorded for `k` in `s`; the last entry with that key wins,
/// and a key with no entry has amount zero.
pub open spec fn amount_in<K: View>(s: Seq<(K, u128)>, k: K::V) -> nat
    decreases s.len(),
{
    if s.len() == 0 {
        0
    } else if s.last().0@ == k {
        s.last().1 as nat
    } else {
        amount_in(s.drop_last(), k)
    }
}

/// The sum of all amounts in `s`.
pub open spec fn sum_of<K>(s: Seq<(K, u128)>) -> nat
    decreases s.len(),
{
    if s.len() == 0 {
        0
    } else {
        sum_of(s.drop_last()) + s.last().1 as nat
    }
}

/// No two entries of `s` share a key.
pub open spec fn keys_unique<K: View>(s: Seq<(K, u128)>) -> bool {
    forall|i: int, j: int| 0 <= i < j < s.len() ==> s[i].0@ != s[j].0@
}

/// A key with no entry has amount zero.
proof fn lemma_absent<K: View>(s: Seq<(K, u128)>, k: K::V)
    requires
        forall|j: int| 0 <= j < s.len() ==> s[j].0@ != k,
    ensures
        amount_in(s, k) == 0,
    decreases s.len(),
{
    if s.len() > 0 {
        lemma_absent(s.drop_last(), k);
    }
}

/// The amounts of two distinct keys add up to at most the sum.
proof fn lemma_amounts_le_sum<K: View>(s: Seq<(K, u128)>, a: K::V, b: K::V)
    ensures
        amount_in(s, a) <= sum_of(s),
        a != b ==> amount_in(s, a) + amount_in(s, b) <= sum_of(s),
    decreases s.len(),
{
    if s.len() > 0 {
        lemma_amounts_le_sum(s.drop_last(), a, b);
    }
}

/// Overwriting the amount of the entry at `i` changes that key's amount and
/// the sum, and nothing else.
proof fn lemma_overwrite<K: View>(s: Seq<(K, u128)>, i: int, e: (K, u128))
    requires
        keys_unique(s),
        0 <= i < s.len(),
        e.0@ == s[i].0@,
    ensures
        amount_in(s, e.0@) == s[i].1,
        forall|x: K::V| #[trigger] amount_in(s.update(i, e), x)
            == if x == e.0@ { e.1 as nat } else { amount_in(s, x) },
        sum_of(s.update(i, e)) + s[i].1 == sum_of(s) + e.1,
    decreases s.len(),
{
    let t = s.update(i, e);
    assert(t.len() == s.len());
    if i == s.len() - 1 {
        assert(t.drop_last() =~= s.drop_last());
        assert(t.last() == e);
        assert forall|x: K::V| #[trigger] amount_in(t, x)
            == if x == e.0@ { e.1 as nat } else { amount_in(s, x) } by {}
    } else {
        let d = s.drop_last();
        assert(i < d.len());
        assert(t.drop_last() =~= d.update(i, e));
        assert(t.last() == s.last());
        assert(s.last().0@ != s[i].0@);
        assert(keys_unique(d));
        lemma_overwrite(d, i, e);
        assert forall|x: K::V| #[trigger] amount_in(t, x)
            == if x == e.0@ { e.1 as nat } else { amount_in(s, x) } by {
            assert(amount_in(d.update(i, e), x)
                == if x == e.0@ { e.1 as nat } else { amount_in(d, x) });
        }
    }
}

/// A table of amounts keyed by `K`, holding at most one entry per key.
pub struct Table<K> {
    entries: Vec<(K, u128)>,
}

impl<K: Key + Copy> Table<K> {
    /// The table's entries are keyed uniquely.
    pub closed spec fn wf(&self) -> bool {
        keys_unique(self.entries@)
    }

    /// The amount held for `k`; zero where nothing was written.
    pub closed spec fn amount(&self, k: K::V) -> nat {
        amount_in(self.entries@, k)
    }

    /// The sum of all amounts in the table.
    pub closed spec fn total(&self) -> nat {
        sum_of(self.entries@)
    }

    /// An empty table: every key holds zero.
    pub fn new() -> (r: Self)
        ensures
            r.wf(),
            forall|k: K::V| #[trigger] r.amount(k) == 0,
            r.total() == 0,
    {
        Table { entries: Vec::new() }
    }

    /// No amount exceeds the total, and two distinct keys together do not.
    pub proof fn lemma_bounded_by_total(&self, a: K::V, b: K::V)
        ensures
            self.amount(a) <= self.total(),
            a != b ==> self.amount(a) + self.amount(b) <= self.total(),
    {
        lemma_amounts_le_sum(self.entries@, a, b);
    }

    /// The index of the entry for `k`, if there is one.
    fn find(&self, k: &K) -> (r: Option<usize>)
        ensures
            match r {
                Some(i) => i < self.entries@.len() && self.entries@[i as int].0@ == k@,
                None => forall|j: int|
                    0 <= j < self.entries@.len() ==> self.entries@[j].0@ != k@,
            },
    {
        let n = self.entries.len();
        let mut i: usize = 0;
        while i < n
            invariant
                n == self.entries@.len(),
                i <= n,
                forall|j: int| 0 <= j < i ==> self.entries@[j].0@ != k@,
            decreases n - i,
        {
            if self.entries[i].0.same_key(k) {
                return Some(i);
            }
            i = i + 1;
        }
        None
    }

    /// The amount held for `k`.
    pub fn get(&self, k: &K) -> (r: u128)
        requires
            self.wf(),
        ensures
            r == self.amount(k@),
    {
        match self.find(k) {
            Some(i) => {
                proof {
                    lemma_overwrite(self.entries@, i as int, self.entries@[i as int]);
                }
                self.entries[i].1
            },
            None => {
                proof {
                    lemma_absent(self.entries@, k@);
                }
                0
            },
        }
    }

    /// Records `v` as the amount of `k`, creating its entry if needed.
    pub fn set(&mut self, k: K, v: u128)
        requires
            old(self).wf(),
        ensures
            final(self).wf(),
            final(self).amount(k@) == v,
            forall|x: K::V| x != k@ ==> #[trigger] final(self).amount(x) == old(self).amount(x),
            final(self).total() + old(self).amount(k@) == old(self).total() + v,
    {
        match self.find(&k) {
            Some(i) => {
                proof {
                    lemma_overwrite(self.entries@, i as int, (k, v));
                }
                self.entries[i] = (k, v);
            },
            None => {
                proof {
                    lemma_absent(self.entries@, k@);
                }
                self.entries.push((k, v));
                assert(self.entries@.drop_last() =~= old(self).entries@);
            },
        }
    }
}

} // verus!
