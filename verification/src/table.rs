//! A small keyed table: a list of entries with distinct keys, seen as a map.
use vstd::prelude::*;
use crate::account::{AccountId, Bytes32};

verus! {

/// Keys that can be compared for equality in executable code.
pub trait TableKey: Sized + Copy {
    fn same_key(&self, other: &Self) -> (r: bool)
        ensures
            r == (*self == *other),
    ;
}

impl TableKey for u32 {
    fn same_key(&self, other: &Self) -> (r: bool) {
        *self == *other
    }
}

impl TableKey for u64 {
    fn same_key(&self, other: &Self) -> (r: bool) {
        *self == *other
    }
}

impl TableKey for AccountId {
    fn same_key(&self, other: &Self) -> (r: bool) {
        self.same(other)
    }
}

impl TableKey for Bytes32 {
    fn same_key(&self, other: &Self) -> (r: bool) {
        self.same(other)
    }
}

/// An account paired with one of its vesting schedules.
#[derive(Clone, Copy, Debug)]
pub struct ScheduleKey {
    pub account: AccountId,
    pub vesting_id: u32,
}

impl TableKey for ScheduleKey {
    fn same_key(&self, other: &Self) -> (r: bool) {
        let same_id = self.vesting_id == other.vesting_id;
        same_id && self.account.same(&other.account)
    }
}

/// A voter paired with a governance proposal.
#[derive(Clone, Copy, Debug)]
pub struct VoteKey {
    pub proposal_id: u64,
    pub voter: AccountId,
}

impl TableKey for VoteKey {
    fn same_key(&self, other: &Self) -> (r: bool) {
        let same_id = self.proposal_id == other.proposal_id;
        same_id && self.voter.same(&other.voter)
    }
}

/// Entries with pairwise distinct keys; its view is the map from each key to
/// its value.
pub struct Table<K, V> {
    pub entries: Vec<(K, V)>,
}

impl<K, V> Table<K, V> {
    /// No two entries share a key.
    pub open spec fn wf(&self) -> bool {
        forall|i: int, j: int|
            0 <= i < j < self.entries@.len() ==> #[trigger] self.entries@[i].0
                != #[trigger] self.entries@[j].0
    }

    pub open spec fn has(&self, k: K) -> bool {
        exists|i: int| 0 <= i < self.entries@.len() && self.entries@[i].0 == k
    }

    pub open spec fn index_of(&self, k: K) -> int {
        choose|i: int| 0 <= i < self.entries@.len() && self.entries@[i].0 == k
    }

    pub open spec fn value_of(&self, k: K) -> V {
        self.entries@[self.index_of(k)].1
    }
}

impl<K, V> View for Table<K, V> {
    type V = Map<K, V>;

    open spec fn view(&self) -> Map<K, V> {
        Map::new(|k: K| self.has(k), |k: K| self.value_of(k))
    }
}

/// In a table with distinct keys, the entry holding a key is the one that
/// `index_of` picks.
pub proof fn lemma_index_of_unique<K, V>(t: &Table<K, V>, k: K, i: int)
    requires
        t.wf(),
        0 <= i < t.entries@.len(),
        t.entries@[i].0 == k,
    ensures
        t.has(k),
        t.index_of(k) == i,
        t@.contains_key(k),
        t@[k] == t.entries@[i].1,
{
    assert(t.has(k));
    let j = t.index_of(k);
    if j < i {
        assert(t.entries@[j].0 != t.entries@[i].0);
    } else if i < j {
        assert(t.entries@[i].0 != t.entries@[j].0);
    }
}

impl<K: TableKey, V> Table<K, V> {
    /// An empty table.
    pub fn new() -> (t: Self)
        ensures
            t.wf(),
            t@ == Map::<K, V>::empty(),
            t.entries@ == Seq::<(K, V)>::empty(),
    {
        let t = Table { entries: Vec::new() };
        assert(t@ =~= Map::<K, V>::empty());
        t
    }

    /// The position of the entry with key `k`, if any.
    pub fn find(&self, k: &K) -> (r: Option<usize>)
        requires
            self.wf(),
        ensures
            match r {
                Some(i) => i < self.entries@.len() && self.entries@[i as int].0 == *k
                    && self@.contains_key(*k) && self@[*k] == self.entries@[i as int].1,
                None => !self@.contains_key(*k),
            },
    {
        let mut i: usize = 0;
        while i < self.entries.len()
            invariant
                self.wf(),
                0 <= i <= self.entries@.len(),
                forall|j: int| 0 <= j < i ==> self.entries@[j].0 != *k,
            decreases self.entries@.len() - i,
        {
            if self.entries[i].0.same_key(k) {
                proof {
                    lemma_index_of_unique(self, *k, i as int);
                }
                return Some(i);
            }
            i = i + 1;
        }
        assert(!self.has(*k));
        None
    }

    /// Whether the table holds key `k`.
    pub fn contains_key(&self, k: &K) -> (r: bool)
        requires
            self.wf(),
        ensures
            r == self@.contains_key(*k),
    {
        match self.find(k) {
            Some(_) => true,
            None => false,
        }
    }

    /// The value stored under `k`, if any.
    pub fn get(&self, k: &K) -> (r: Option<&V>)
        requires
            self.wf(),
        ensures
            match r {
                Some(v) => self@.contains_key(*k) && *v == self@[*k],
                None => !self@.contains_key(*k),
            },
    {
        match self.find(k) {
            Some(i) => Some(&self.entries[i].1),
            None => None,
        }
    }

    /// Stores `v` under `k`, replacing any earlier value.
    pub fn insert(&mut self, k: K, v: V)
        requires
            old(self).wf(),
        ensures
            final(self).wf(),
            final(self)@ == old(self)@.insert(k, v),
    {
        let ghost before = *self;
        match self.find(&k) {
            Some(i) => {
                self.entries.set(i, (k, v));
                proof {
                    assert(self.wf()) by {
                        assert forall|a: int, b: int|
                            0 <= a < b < self.entries@.len() implies #[trigger] self.entries@[a].0
                            != #[trigger] self.entries@[b].0 by {
                            assert(before.entries@[a].0 == self.entries@[a].0);
                            assert(before.entries@[b].0 == self.entries@[b].0);
                            assert(before.entries@[a].0 != before.entries@[b].0);
                        }
                    }
                    assert forall|x: K| #[trigger] self.has(x) == before.has(x) by {
                        if before.has(x) {
                            let j = before.index_of(x);
                            assert(self.entries@[j].0 == x);
                        }
                        if self.has(x) {
                            let j = self.index_of(x);
                            assert(before.entries@[j].0 == x);
                        }
                    }
                    assert forall|x: K| #[trigger] self.has(x) implies self.value_of(x) == (
                    if x == k {
                        v
                    } else {
                        before.value_of(x)
                    }) by {
                        let j = before.index_of(x);
                        lemma_index_of_unique(&before, x, j);
                        lemma_index_of_unique(self, x, j);
                    }
                    assert(self@ =~= before@.insert(k, v));
                }
            },
            None => {
                self.entries.push((k, v));
                proof {
                    let n = before.entries@.len() as int;
                    assert(self.wf()) by {
                        assert forall|a: int, b: int|
                            0 <= a < b < self.entries@.len() implies #[trigger] self.entries@[a].0
                            != #[trigger] self.entries@[b].0 by {
                            if b == n {
                                assert(before.entries@[a].0 == self.entries@[a].0);
                                assert(!before.has(k));
                            } else {
                                assert(before.entries@[a].0 != before.entries@[b].0);
                            }
                        }
                    }
                    assert forall|x: K| #[trigger] self.has(x) == (before.has(x) || x == k) by {
                        if before.has(x) {
                            let j = before.index_of(x);
                            assert(self.entries@[j].0 == x);
                        }
                        if x == k {
                            assert(self.entries@[n].0 == x);
                        }
                        if self.has(x) && x != k {
                            let j = self.index_of(x);
                            assert(before.entries@[j].0 == x);
                        }
                    }
                    assert forall|x: K| #[trigger] self.has(x) implies self.value_of(x) == (
                    if x == k {
                        v
                    } else {
                        before.value_of(x)
                    }) by {
                        if x == k {
                            lemma_index_of_unique(self, x, n);
                        } else {
                            let j = before.index_of(x);
                            lemma_index_of_unique(&before, x, j);
                            lemma_index_of_unique(self, x, j);
                        }
                    }
                    assert(self@ =~= before@.insert(k, v));
                }
            },
        }
    }

    /// Removes the entry for `k` and hands back its value, if there was one.
    pub fn remove(&mut self, k: &K) -> (r: Option<V>)
        requires
            old(self).wf(),
        ensures
            final(self).wf(),
            final(self)@ == old(self)@.remove(*k),
            match r {
                Some(v) => old(self)@.contains_key(*k) && v == old(self)@[*k],
                None => !old(self)@.contains_key(*k),
            },
    {
        let ghost before = *self;
        match self.find(k) {
            Some(i) => {
                let (_, v) = self.entries.remove(i);
                proof {
                    let n = before.entries@.len() as int;
                    assert forall|a: int| 0 <= a < self.entries@.len() implies #[trigger] self.entries@[a]
                        == before.entries@[if a < i {
                        a
                    } else {
                        a + 1
                    }] by {}
                    assert(self.wf()) by {
                        assert forall|a: int, b: int|
                            0 <= a < b < self.entries@.len() implies #[trigger] self.entries@[a].0
                            != #[trigger] self.entries@[b].0 by {
                            let a0 = if a < i { a } else { a + 1 };
                            let b0 = if b < i { b } else { b + 1 };
                            assert(self.entries@[a] == before.entries@[a0]);
                            assert(self.entries@[b] == before.entries@[b0]);
                            assert(before.entries@[a0].0 != before.entries@[b0].0);
                        }
                    }
                    assert forall|x: K| #[trigger] self.has(x) == (before.has(x) && x != *k) by {
                        if before.has(x) && x != *k {
                            let j = before.index_of(x);
                            lemma_index_of_unique(&before, x, j);
                            assert(j != i);
                            let j1 = if j < i { j } else { j - 1 };
                            assert(self.entries@[j1] == before.entries@[j]);
                        }
                        if self.has(x) {
                            let j = self.index_of(x);
                            let j0 = if j < i { j } else { j + 1 };
                            assert(self.entries@[j] == before.entries@[j0]);
                            if x == *k {
                                assert(before.entries@[j0].0 == before.entries@[i as int].0);
                                if j0 < i {
                                    assert(before.entries@[j0].0 != before.entries@[i as int].0);
                                } else {
                                    assert(before.entries@[i as int].0 != before.entries@[j0].0);
                                }
                            }
                        }
                    }
                    assert forall|x: K| #[trigger] self.has(x) implies self.value_of(x)
                        == before.value_of(x) by {
                        let j = self.index_of(x);
                        let j0 = if j < i { j } else { j + 1 };
                        assert(self.entries@[j] == before.entries@[j0]);
                        lemma_index_of_unique(self, x, j);
                        lemma_index_of_unique(&before, x, j0);
                    }
                    assert(self@ =~= before@.remove(*k));
                }
                Some(v)
            },
            None => {
                assert(self@ =~= before@.remove(*k));
                None
            },
        }
    }
}

} // verus!

verus! {

/// A copy of a list of plain values.
pub fn copy_vec<T: Copy>(v: &Vec<T>) -> (r: Vec<T>)
    ensures
        r@ == v@,
{
    let mut r: Vec<T> = Vec::new();
    let mut i: usize = 0;
    while i < v.len()
        invariant
            0 <= i <= v@.len(),
            r@ == v@.subrange(0, i as int),
        decreases v@.len() - i,
    {
        r.push(v[i]);
        i = i + 1;
        assert(r@ =~= v@.subrange(0, i as int));
    }
    assert(v@.subrange(0, v@.len() as int) =~= v@);
    r
}

} // verus!

verus! {

/// Entries in strictly increasing key order.
pub open spec fn keys_ascending<V>(s: Seq<(u32, V)>) -> bool {
    forall|i: int, j: int| 0 <= i < j < s.len() ==> #[trigger] s[i].0 < #[trigger] s[j].0
}

/// Two tables with distinct keys that hold the same entries (`to_b` places
/// each entry of `a` in `b`, `to_a` each entry of `b` in `a`) have the same
/// contents.
pub proof fn lemma_same_entries_same_view<K, V>(a: &Table<K, V>, b: &Table<K, V>, to_b: Seq<int>, to_a: Seq<int>)
    requires
        a.wf(),
        b.wf(),
        to_b.len() == a.entries@.len(),
        to_a.len() == b.entries@.len(),
        forall|m: int| 0 <= m < a.entries@.len() ==> 0 <= #[trigger] to_b[m] < b.entries@.len() && b.entries@[to_b[m]] == a.entries@[m],
        forall|j: int| 0 <= j < b.entries@.len() ==> 0 <= #[trigger] to_a[j] < a.entries@.len() && a.entries@[to_a[j]] == b.entries@[j],
    ensures
        a@ == b@,
{
    assert forall|k: K| #[trigger] a.has(k) == b.has(k) by {
        if a.has(k) {
            let m = a.index_of(k);
            assert(b.entries@[to_b[m]].0 == k);
        }
        if b.has(k) {
            let j = b.index_of(k);
            assert(a.entries@[to_a[j]].0 == k);
        }
    }
    assert forall|k: K| #[trigger] a.has(k) implies a.value_of(k) == b.value_of(k) by {
        let m = a.index_of(k);
        lemma_index_of_unique(a, k, m);
        lemma_index_of_unique(b, k, to_b[m]);
    }
    assert(a@ =~= b@);
}

impl<V: Copy> Table<u32, V> {
    /// A copy of the table with its entries in increasing key order.
    pub fn sorted_by_key(&self) -> (r: Self)
        requires
            self.wf(),
        ensures
            r.wf(),
            r@ == self@,
            keys_ascending(r.entries@),
    {
        let n = self.entries.len();
        let mut out: Vec<(u32, V)> = Vec::new();
        let mut i: usize = 0;
        let ghost mut src: Seq<int> = Seq::empty();
        let ghost mut dst: Seq<int> = Seq::empty();
        while i < n
            invariant
                n == self.entries@.len(),
                self.wf(),
                0 <= i <= n,
                out@.len() == i,
                src.len() == i,
                dst.len() == i,
                keys_ascending(out@),
                forall|m: int| 0 <= m < i ==> 0 <= #[trigger] src[m] < i && self.entries@[src[m]] == out@[m],
                forall|j: int| 0 <= j < i ==> 0 <= #[trigger] dst[j] < i && out@[dst[j]] == self.entries@[j],
            decreases n - i,
        {
            let e = self.entries[i];
            assert forall|m: int| 0 <= m < out@.len() implies #[trigger] out@[m].0 != e.0 by {
                assert(self.entries@[src[m]].0 != self.entries@[i as int].0);
            }
            let mut p: usize = 0;
            while p < out.len() && out[p].0 < e.0
                invariant
                    0 <= p <= out@.len(),
                    forall|m: int| 0 <= m < p ==> #[trigger] out@[m].0 < e.0,
                decreases out@.len() - p,
            {
                p = p + 1;
            }
            let ghost before = out@;
            let ghost src0 = src;
            let ghost dst0 = dst;
            out.insert(p, e);
            proof {
                assert(out@ == before.insert(p as int, e));
                assert forall|a: int, b: int| 0 <= a < b < out@.len() implies #[trigger] out@[a].0 < #[trigger] out@[b].0 by {
                    if b < p {
                        assert(out@[a] == before[a] && out@[b] == before[b]);
                    } else if b == p {
                        assert(out@[a] == before[a]);
                    } else if a == p {
                        assert(out@[b] == before[b - 1]);
                        assert(before[p as int].0 != e.0);
                        if p as int != b - 1 {
                            assert(before[p as int].0 < before[b - 1].0);
                        }
                    } else if a < p {
                        assert(out@[a] == before[a] && out@[b] == before[b - 1]);
                    } else {
                        assert(out@[a] == before[a - 1] && out@[b] == before[b - 1]);
                    }
                }
                src = src0.insert(p as int, i as int);
                dst = Seq::new((i + 1) as nat, |j: int| if j == i { p as int } else if dst0[j] < p { dst0[j] } else { dst0[j] + 1 });
                assert forall|m: int| 0 <= m < i + 1 implies 0 <= #[trigger] src[m] < i + 1 && self.entries@[src[m]] == out@[m] by {
                    if m < p {
                        assert(src[m] == src0[m] && out@[m] == before[m]);
                    } else if m > p {
                        assert(src[m] == src0[m - 1] && out@[m] == before[m - 1]);
                    }
                }
                assert forall|j: int| 0 <= j < i + 1 implies 0 <= #[trigger] dst[j] < i + 1 && out@[dst[j]] == self.entries@[j] by {
                    if j < i {
                        if dst0[j] < p {
                            assert(out@[dst0[j]] == before[dst0[j]]);
                        } else {
                            assert(out@[dst0[j] + 1] == before[dst0[j]]);
                        }
                    }
                }
            }
            i = i + 1;
        }
        let r = Table { entries: out };
        assert(r.wf()) by {
            assert forall|a: int, b: int| 0 <= a < b < r.entries@.len() implies #[trigger] r.entries@[a].0
                != #[trigger] r.entries@[b].0 by {
                assert(r.entries@[a].0 < r.entries@[b].0);
            }
        }
        proof {
            lemma_same_entries_same_view(&r, self, src, dst);
        }
        r
    }
}

} // verus!
