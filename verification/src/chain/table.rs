//! A finite map from addresses to values, kept as a vector of entries with
//! distinct keys.

use vstd::prelude::*;

use super::address::Address;

verus! {

/// One key and its value.
pub struct Entry<V> {
    pub key: Address,
    pub value: V,
}

/// A table of values keyed by address.
pub struct Table<V> {
    entries: Vec<Entry<V>>,
}

impl<V> Table<V> {
    /// No key occurs twice.
    pub closed spec fn wf(self) -> bool {
        forall|i: int, j: int|
            0 <= i < j < self.entries@.len() ==> self.entries@[i].key != self.entries@[j].key
    }

    /// The position of `k` among the entries.
    pub closed spec fn index_of(self, k: Address) -> int {
        choose|i: int| 0 <= i < self.entries@.len() && self.entries@[i].key == k
    }

    pub closed spec fn map(self) -> Map<Address, V> {
        Map::new(
            |k: Address| exists|i: int| 0 <= i < self.entries@.len() && self.entries@[i].key == k,
            |k: Address| self.entries@[self.index_of(k)].value,
        )
    }

    proof fn lemma_lookup(self, i: int)
        requires
            self.wf(),
            0 <= i < self.entries@.len(),
        ensures
            self.map().contains_key(self.entries@[i].key),
            self.index_of(self.entries@[i].key) == i,
            self.map()[self.entries@[i].key] == self.entries@[i].value,
    {
        let k = self.entries@[i].key;
        assert(self.map().contains_key(k));
        let j = self.index_of(k);
        if j != i {
            if j < i {
                assert(self.entries@[j].key != self.entries@[i].key);
            } else {
                assert(self.entries@[i].key != self.entries@[j].key);
            }
        }
    }

    /// The entries of `self` are those of `before` with `k` now holding `v`:
    /// in its old place if it had one, else at the end.
    pub closed spec fn updated_from(self, before: Self, k: Address, v: V) -> bool {
        ||| exists|i: int|
            0 <= i < before.entries@.len() && before.entries@[i].key == k && self.entries@
                == before.entries@.update(i, Entry { key: k, value: v })
        ||| !before.map().contains_key(k) && self.entries@ == before.entries@.push(
            Entry { key: k, value: v },
        )
    }

    /// An empty table.
    pub fn new() -> (t: Self)
        ensures
            t.wf(),
            t@ == Map::<Address, V>::empty(),
    {
        let t = Table { entries: Vec::new() };
        assert(t@ =~= Map::<Address, V>::empty());
        t
    }

    /// Where `k` stands, if it does.
    fn position(&self, k: Address) -> (r: Option<usize>)
        requires
            self.wf(),
        ensures
            r is None <==> !self@.contains_key(k),
            r matches Some(i) ==> i < self.entries@.len() && self.entries@[i as int].key == k,
    {
        let n = self.entries.len();
        let mut i: usize = 0;
        while i < n
            invariant
                n == self.entries@.len(),
                i <= n,
                forall|j: int| 0 <= j < i ==> self.entries@[j].key != k,
            decreases n - i,
        {
            if self.entries[i].key == k {
                return Some(i);
            }
            i = i + 1;
        }
        None
    }

    /// The value under `k`, if any.
    pub fn get(&self, k: Address) -> (r: Option<&V>)
        requires
            self.wf(),
        ensures
            r matches Some(v) ==> self@.contains_key(k) && *v == self@[k],
            r is None <==> !self@.contains_key(k),
    {
        match self.position(k) {
            Some(i) => {
                proof {
                    self.lemma_lookup(i as int);
                }
                Some(&self.entries[i].value)
            },
            None => None,
        }
    }

    /// Puts `v` under `k`, in place of any value there.
    pub fn set(&mut self, k: Address, v: V)
        requires
            old(self).wf(),
        ensures
            final(self).wf(),
            final(self)@ == old(self)@.insert(k, v),
            final(self).updated_from(*old(self), k, v),
    {
        let ghost before = *self;
        match self.position(k) {
            Some(i) => {
                self.entries.set(i, Entry { key: k, value: v });
                proof {
                    let after = *self;
                    assert(after.wf()) by {
                        assert forall|a: int, b: int|
                            0 <= a < b < after.entries@.len() implies after.entries@[a].key
                            != after.entries@[b].key by {
                            assert(after.entries@[a].key == before.entries@[a].key);
                            assert(after.entries@[b].key == before.entries@[b].key);
                        }
                    }
                    assert forall|x: Address| #[trigger] after@.contains_key(x) <==> before@.insert(k, v).contains_key(x) by {
                        if after@.contains_key(x) {
                            let j = choose|j: int| 0 <= j < after.entries@.len() && after.entries@[j].key == x;
                            assert(before.entries@[j].key == x);
                        }
                        if before@.contains_key(x) && x != k {
                            let j = choose|j: int| 0 <= j < before.entries@.len() && before.entries@[j].key == x;
                            assert(after.entries@[j].key == x);
                        }
                        if x == k {
                            assert(after.entries@[i as int].key == k);
                        }
                    }
                    assert forall|x: Address| #[trigger] after@.contains_key(x) implies after@[x] == before@.insert(k, v)[x] by {
                        let j = choose|j: int| 0 <= j < after.entries@.len() && after.entries@[j].key == x;
                        after.lemma_lookup(j);
                        if x != k {
                            before.lemma_lookup(j);
                        }
                    }
                    assert(after@ =~= before@.insert(k, v));
                }
            },
            None => {
                self.entries.push(Entry { key: k, value: v });
                proof {
                    let after = *self;
                    let n = before.entries@.len();
                    assert forall|x: Address| #[trigger] after@.contains_key(x) <==> before@.insert(k, v).contains_key(x) by {
                        if after@.contains_key(x) && x != k {
                            let j = choose|j: int| 0 <= j < after.entries@.len() && after.entries@[j].key == x;
                            assert(j < n);
                            assert(before.entries@[j].key == x);
                        }
                        if before@.contains_key(x) {
                            let j = choose|j: int| 0 <= j < before.entries@.len() && before.entries@[j].key == x;
                            assert(after.entries@[j].key == x);
                        }
                        if x == k {
                            assert(after.entries@[n as int].key == k);
                        }
                    }
                    assert(after.wf());
                    assert forall|x: Address| #[trigger] after@.contains_key(x) implies after@[x] == before@.insert(k, v)[x] by {
                        let j = choose|j: int| 0 <= j < after.entries@.len() && after.entries@[j].key == x;
                        after.lemma_lookup(j);
                        if x != k {
                            before.lemma_lookup(j);
                        }
                    }
                    assert(after@ =~= before@.insert(k, v));
                }
            },
        }
    }
}

/// The sum of the values of a sequence of entries.
pub open spec fn sum_values(s: Seq<Entry<u64>>) -> int
    decreases s.len(),
{
    if s.len() == 0 {
        0
    } else {
        sum_values(s.drop_last()) + s.last().value
    }
}

proof fn lemma_sum_update(s: Seq<Entry<u64>>, i: int, e: Entry<u64>)
    requires
        0 <= i < s.len(),
    ensures
        sum_values(s.update(i, e)) == sum_values(s) - s[i].value + e.value,
    decreases s.len(),
{
    let t = s.update(i, e);
    if i == s.len() - 1 {
        assert(t.drop_last() =~= s.drop_last());
    } else {
        lemma_sum_update(s.drop_last(), i, e);
        assert(t.drop_last() =~= s.drop_last().update(i, e));
    }
}

/// The sum, over the keys in `keys`, of the values that `m` holds for them.
pub open spec fn sum_over(keys: Set<Address>, m: Map<Address, u64>) -> int {
    keys.fold(0int, |acc: int, a: Address| acc + m[a])
}

impl Table<u64> {
    /// The keys of the first `n` entries.
    closed spec fn prefix_keys(self, n: int) -> Set<Address> {
        Set::new(|k: Address| exists|i: int| 0 <= i < n && self.entries@[i].key == k)
    }

    proof fn lemma_prefix_sum(self, n: int)
        requires
            self.wf(),
            0 <= n <= self.entries@.len(),
        ensures
            self.prefix_keys(n).finite(),
            sum_values(self.entries@.take(n)) == sum_over(self.prefix_keys(n), self.map()),
        decreases n,
    {
        let m = self.map();
        let f = |acc: int, a: Address| acc + m[a];
        if n == 0 {
            assert(self.prefix_keys(0) =~= Set::<Address>::empty());
            vstd::set::fold::lemma_fold_empty(0int, f);
            assert(self.entries@.take(0) =~= Seq::<Entry<u64>>::empty());
        } else {
            self.lemma_prefix_sum(n - 1);
            let k = self.entries@[n - 1].key;
            assert(self.prefix_keys(n) =~= self.prefix_keys(n - 1).insert(k));
            assert(!self.prefix_keys(n - 1).contains(k)) by {
                if self.prefix_keys(n - 1).contains(k) {
                    let i = choose|i: int| 0 <= i < n - 1 && self.entries@[i].key == k;
                    assert(self.entries@[i].key != self.entries@[n - 1].key);
                }
            }
            assert(vstd::set::fold::is_fun_commutative(f));
            vstd::set::fold::lemma_fold_insert(self.prefix_keys(n - 1), 0int, f, k);
            self.lemma_lookup(n - 1);
            assert(self.entries@.take(n).drop_last() =~= self.entries@.take(n - 1));
        }
    }

    /// The total is the sum of the values of the map, whose keys are finitely
    /// many.
    pub proof fn lemma_total_is_sum(self)
        requires
            self.wf(),
        ensures
            self@.dom().finite(),
            self.total() == sum_over(self@.dom(), self@),
    {
        let n = self.entries@.len() as int;
        self.lemma_prefix_sum(n);
        assert(self.prefix_keys(n) =~= self@.dom());
        assert(self.entries@.take(n) =~= self.entries@);
    }

    /// The sum of all values.
    pub closed spec fn total(self) -> int {
        sum_values(self.entries@)
    }

    /// The value under `k`, 0 where there is none.
    pub open spec fn value_or_zero(self, k: Address) -> u64 {
        if self@.contains_key(k) {
            self@[k]
        } else {
            0
        }
    }

    /// Putting `v` under `k` moves the total by `v` less what `k` held.
    pub proof fn lemma_total_after_set(self, before: Self, k: Address, v: u64)
        requires
            before.wf(),
            self.updated_from(before, k, v),
        ensures
            self.total() == before.total() - before.value_or_zero(k) + v,
    {
        if exists|i: int|
            0 <= i < before.entries@.len() && before.entries@[i].key == k && self.entries@
                == before.entries@.update(i, Entry { key: k, value: v }) {
            let i = choose|i: int|
                0 <= i < before.entries@.len() && before.entries@[i].key == k && self.entries@
                    == before.entries@.update(i, Entry { key: k, value: v });
            before.lemma_lookup(i);
            lemma_sum_update(before.entries@, i, Entry { key: k, value: v });
        } else {
            assert(self.entries@.drop_last() =~= before.entries@);
        }
    }

    /// The total of an empty table is 0.
    pub proof fn lemma_total_empty(self)
        requires
            self@ == Map::<Address, u64>::empty(),
        ensures
            self.total() == 0,
    {
        if self.entries@.len() > 0 {
            assert(self.map().contains_key(self.entries@[0].key));
        }
    }
}

impl<V> View for Table<V> {
    type V = Map<Address, V>;

    closed spec fn view(&self) -> Map<Address, V> {
        self.map()
    }
}

} // verus!
