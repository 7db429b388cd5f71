//! Storage maps: slot key to value for an account's live storage, and slot key
//! to before/after pair for the storage diff a transition carries.
//!
//! A map is held as a vector of entries with pairwise-distinct keys and is
//! modelled as a `Map<U256, T>`.

use vstd::prelude::*;

use crate::u256::U256;

verus! {

/// One storage slot of a diff: the value the slot now holds and the value it
/// held before this batch's first touch of it (kept for proof and revert
/// purposes, however many times the slot changes within the batch).
#[derive(Clone, Copy, Debug, PartialEq, Eq, Structural)]
pub struct StorageSlot {
    pub present_value: U256,
    pub original_value: U256,
}

impl StorageSlot {
    /// The diff entry for a slot that is being deleted: present value zero,
    /// original value whatever the slot held.
    pub fn new_cleared_value(original: U256) -> (r: StorageSlot)
        ensures
            r == (StorageSlot { present_value: U256::spec_zero(), original_value: original }),
    {
        StorageSlot { present_value: U256::zero(), original_value: original }
    }
}

/// The map an entry sequence denotes: later entries win, though under
/// `unique_keys` the order never matters.
pub open spec fn map_of<T>(s: Seq<(U256, T)>) -> Map<U256, T>
    decreases s.len(),
{
    if s.len() == 0 {
        Map::empty()
    } else {
        map_of(s.drop_last()).insert(s.last().0, s.last().1)
    }
}

/// Pairwise-distinct keys.
pub open spec fn unique_keys<T>(s: Seq<(U256, T)>) -> bool {
    forall|i: int, j: int| 0 <= i < j < s.len() ==> s[i].0 != s[j].0
}

pub proof fn lemma_map_of_contains_key<T>(s: Seq<(U256, T)>, k: U256)
    ensures
        map_of(s).contains_key(k) <==> exists|i: int| 0 <= i < s.len() && s[i].0 == k,
    decreases s.len(),
{
    if s.len() > 0 {
        lemma_map_of_contains_key(s.drop_last(), k);
        if s.last().0 == k {
            assert(s[s.len() - 1].0 == k);
        } else if map_of(s).contains_key(k) {
            let i = choose|i: int| 0 <= i < s.drop_last().len() && s.drop_last()[i].0 == k;
            assert(s[i].0 == k);
        } else if exists|i: int| 0 <= i < s.len() && s[i].0 == k {
            let i = choose|i: int| 0 <= i < s.len() && s[i].0 == k;
            assert(s.drop_last()[i].0 == k);
        }
    }
}

pub proof fn lemma_map_of_index<T>(s: Seq<(U256, T)>, i: int)
    requires
        unique_keys(s),
        0 <= i < s.len(),
    ensures
        map_of(s).contains_key(s[i].0),
        map_of(s)[s[i].0] == s[i].1,
    decreases s.len(),
{
    if i < s.len() - 1 {
        assert(unique_keys(s.drop_last())) by {
            assert(forall|p: int, q: int|
                0 <= p < q < s.drop_last().len() ==> s[p].0 != s[q].0);
        }
        lemma_map_of_index(s.drop_last(), i);
        assert(s.drop_last()[i] == s[i]);
        assert(s.last().0 != s[i].0);
    }
}

pub proof fn lemma_map_of_push<T>(s: Seq<(U256, T)>, p: (U256, T))
    ensures
        map_of(s.push(p)) == map_of(s).insert(p.0, p.1),
{
    assert(s.push(p).drop_last() =~= s);
    assert(s.push(p).last() == p);
}

pub proof fn lemma_map_of_update<T>(s: Seq<(U256, T)>, i: int, v: T)
    requires
        unique_keys(s),
        0 <= i < s.len(),
    ensures
        map_of(s.update(i, (s[i].0, v))) == map_of(s).insert(s[i].0, v),
    decreases s.len(),
{
    let t = s.update(i, (s[i].0, v));
    if i == s.len() - 1 {
        assert(t.drop_last() =~= s.drop_last());
        assert(t.last() == (s[i].0, v));
        assert(map_of(t) == map_of(s.drop_last()).insert(s[i].0, v));
        assert(map_of(s.drop_last()).insert(s[i].0, s[i].1).insert(s[i].0, v)
            =~= map_of(s.drop_last()).insert(s[i].0, v));
    } else {
        assert(unique_keys(s.drop_last())) by {
            assert(forall|p: int, q: int|
                0 <= p < q < s.drop_last().len() ==> s[p].0 != s[q].0);
        }
        assert(s.drop_last()[i] == s[i]);
        lemma_map_of_update(s.drop_last(), i, v);
        assert(t.drop_last() =~= s.drop_last().update(i, (s[i].0, v)));
        assert(t.last() == s.last());
        // inserts of distinct keys commute
        assert(s.last().0 != s[i].0);
        assert(map_of(s.drop_last()).insert(s[i].0, v).insert(s.last().0, s.last().1)
            =~= map_of(s.drop_last()).insert(s.last().0, s.last().1).insert(s[i].0, v));
    }
}

/// An association-list map from slot key to `T`, with pairwise-distinct keys.
#[derive(Clone, Debug, PartialEq, Eq)]
pub struct SlotMap<T> {
    pub entries: Vec<(U256, T)>,
}

impl<T> View for SlotMap<T> {
    type V = Map<U256, T>;

    open spec fn view(&self) -> Map<U256, T> {
        map_of(self.entries@)
    }
}

impl<T: Copy> SlotMap<T> {
    /// Distinct keys: what every operation of this type preserves and relies
    /// on.
    pub open spec fn wf(self) -> bool {
        unique_keys(self.entries@)
    }

    pub fn new() -> (r: SlotMap<T>)
        ensures
            r.wf(),
            r@ == Map::<U256, T>::empty(),
    {
        SlotMap { entries: Vec::new() }
    }

    pub fn get(&self, key: U256) -> (r: Option<T>)
        requires
            self.wf(),
        ensures
            r == if self@.contains_key(key) {
                Some(self@[key])
            } else {
                None::<T>
            },
    {
        let n = self.entries.len();
        let mut i: usize = 0;
        while i < n
            invariant
                n == self.entries.len(),
                i <= n,
                self.wf(),
                forall|j: int| 0 <= j < i ==> self.entries@[j].0 != key,
            decreases n - i,
        {
            if self.entries[i].0 == key {
                proof {
                    lemma_map_of_index(self.entries@, i as int);
                }
                return Some(self.entries[i].1);
            }
            i += 1;
        }
        proof {
            lemma_map_of_contains_key(self.entries@, key);
        }
        None
    }

    /// Inserts or replaces.
    pub fn insert(&mut self, key: U256, value: T)
        requires
            old(self).wf(),
        ensures
            final(self).wf(),
            final(self)@ == old(self)@.insert(key, value),
    {
        let n = self.entries.len();
        let mut i: usize = 0;
        while i < n
            invariant
                n == self.entries.len(),
                i <= n,
                self.wf(),
                self.entries@ == old(self).entries@,
                forall|j: int| 0 <= j < i ==> self.entries@[j].0 != key,
            decreases n - i,
        {
            if self.entries[i].0 == key {
                proof {
                    lemma_map_of_update(self.entries@, i as int, value);
                }
                self.entries.set(i, (key, value));
                proof {
                    assert(forall|p: int, q: int|
                        0 <= p < q < self.entries@.len()
                            ==> self.entries@[p].0 == old(self).entries@[p].0
                                && self.entries@[q].0 == old(self).entries@[q].0);
                }
                return;
            }
            i += 1;
        }
        proof {
            lemma_map_of_push(self.entries@, (key, value));
        }
        self.entries.push((key, value));
    }

    /// Overlays `other` on `self`; on a key collision the entry of `other`
    /// wins.
    pub fn extend(&mut self, other: &SlotMap<T>)
        requires
            old(self).wf(),
            other.wf(),
        ensures
            final(self).wf(),
            final(self)@ == old(self)@.union_prefer_right(other@),
    {
        let ghost m0 = old(self)@;
        let n = other.entries.len();
        let mut i: usize = 0;
        proof {
            assert(m0.union_prefer_right(map_of(other.entries@.take(0))) =~= m0);
        }
        while i < n
            invariant
                n == other.entries.len(),
                i <= n,
                self.wf(),
                other.wf(),
                self@ == m0.union_prefer_right(map_of(other.entries@.take(i as int))),
            decreases n - i,
        {
            let (k, v) = other.entries[i];
            self.insert(k, v);
            proof {
                lemma_map_of_push(other.entries@.take(i as int), (k, v));
                assert(other.entries@.take(i as int).push((k, v))
                    =~= other.entries@.take(i as int + 1));
                assert(m0.union_prefer_right(map_of(other.entries@.take(i as int))).insert(k, v)
                    =~= m0.union_prefer_right(map_of(other.entries@.take(i as int + 1))));
            }
            i += 1;
        }
        proof {
            assert(other.entries@.take(n as int) =~= other.entries@);
        }
    }
}

/// Live storage of one account: slot key to current value.
pub type PlainStorage = SlotMap<U256>;

/// A storage diff: slot key to present/original value pair; holds only slots
/// touched by one operation, never a full snapshot.
pub type StorageWithOriginalValues = SlotMap<StorageSlot>;

/// The diff that deletes every slot of `m`: present value zero, original value
/// what the slot held.
pub open spec fn cleared_map(m: Map<U256, U256>) -> Map<U256, StorageSlot> {
    Map::new(
        |k: U256| m.contains_key(k),
        |k: U256| StorageSlot { present_value: U256::spec_zero(), original_value: m[k] },
    )
}

/// The present values a diff carries.
pub open spec fn present_map(d: Map<U256, StorageSlot>) -> Map<U256, U256> {
    Map::new(|k: U256| d.contains_key(k), |k: U256| d[k].present_value)
}

/// Converts live storage into the diff that deletes all of it.
pub fn cleared_diff(storage: &PlainStorage) -> (d: StorageWithOriginalValues)
    requires
        storage.wf(),
    ensures
        d.wf(),
        d@ == cleared_map(storage@),
{
    let mut d: StorageWithOriginalValues = SlotMap::new();
    let n = storage.entries.len();
    let mut i: usize = 0;
    proof {
        assert(cleared_map(map_of(storage.entries@.take(0))) =~= Map::<U256, StorageSlot>::empty());
    }
    while i < n
        invariant
            n == storage.entries.len(),
            i <= n,
            storage.wf(),
            d.wf(),
            d@ == cleared_map(map_of(storage.entries@.take(i as int))),
        decreases n - i,
    {
        let (k, v) = storage.entries[i];
        d.insert(k, StorageSlot::new_cleared_value(v));
        proof {
            lemma_map_of_push(storage.entries@.take(i as int), (k, v));
            assert(storage.entries@.take(i as int).push((k, v))
                =~= storage.entries@.take(i as int + 1));
            assert(cleared_map(map_of(storage.entries@.take(i as int))).insert(
                k,
                StorageSlot { present_value: U256::spec_zero(), original_value: v },
            ) =~= cleared_map(map_of(storage.entries@.take(i as int + 1))));
        }
        i += 1;
    }
    proof {
        assert(storage.entries@.take(n as int) =~= storage.entries@);
    }
    d
}

/// Extracts the present values of a diff as live storage.
pub fn present_values(diff: &StorageWithOriginalValues) -> (p: PlainStorage)
    requires
        diff.wf(),
    ensures
        p.wf(),
        p@ == present_map(diff@),
{
    let mut p: PlainStorage = SlotMap::new();
    let n = diff.entries.len();
    let mut i: usize = 0;
    proof {
        assert(present_map(map_of(diff.entries@.take(0))) =~= Map::<U256, U256>::empty());
    }
    while i < n
        invariant
            n == diff.entries.len(),
            i <= n,
            diff.wf(),
            p.wf(),
            p@ == present_map(map_of(diff.entries@.take(i as int))),
        decreases n - i,
    {
        let (k, s) = diff.entries[i];
        p.insert(k, s.present_value);
        proof {
            lemma_map_of_push(diff.entries@.take(i as int), (k, s));
            assert(diff.entries@.take(i as int).push((k, s))
                =~= diff.entries@.take(i as int + 1));
            assert(present_map(map_of(diff.entries@.take(i as int))).insert(k, s.present_value)
                =~= present_map(map_of(diff.entries@.take(i as int + 1))));
        }
        i += 1;
    }
    proof {
        assert(diff.entries@.take(n as int) =~= diff.entries@);
    }
    p
}

} // verus!
