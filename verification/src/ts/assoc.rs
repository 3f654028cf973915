//! Small maps whose keys are compared by what they stand for.

use vstd::prelude::*;
use vstd::string::*;

use crate::ts::span::SourceFile;

verus! {

/// A key, which can be compared with another.
pub trait Key: View + Sized {
    /// Whether two keys stand for the same thing.
    fn same(&self, other: &Self) -> (same: bool)
        ensures
            same == (self@ == other@),
    ;
}

impl Key for String {
    fn same(&self, other: &String) -> (same: bool) {
        *self == *other
    }
}

impl Key for SourceFile {
    fn same(&self, other: &SourceFile) -> (same: bool) {
        let n: usize = self.path.len();
        if n != other.path.len() {
            return false;
        }
        for i in 0..n
            invariant
                n == self.path@.len(),
                n == other.path@.len(),
                forall|j: int| 0 <= j < i ==> self.path@[j] == other.path@[j],
        {
            if self.path[i] != other.path[i] {
                assert(self@[i as int] != other@[i as int]);
                return false;
            }
        }
        assert(self@ =~= other@);
        true
    }
}

/// A map in which no key occurs twice.
pub struct AssocMap<K, V> {
    entries: Vec<(K, V)>,
}

/// The map that the first `n` of `entries` make up.
spec fn entries_map<K: View, V>(entries: Seq<(K, V)>, n: nat) -> Map<K::V, V>
    decreases n,
{
    if n == 0 {
        Map::empty()
    } else {
        let entry = entries[n - 1];
        entries_map(entries, (n - 1) as nat).insert(entry.0@, entry.1)
    }
}

/// A key is in the map exactly if it is in one of the entries, and there is but one such entry.
proof fn lemma_entries_map<K: View, V>(entries: Seq<(K, V)>, n: nat)
    requires
        n <= entries.len(),
        forall|i: int, j: int|
            0 <= i < j < entries.len() ==> (#[trigger] entries[i]).0@ != (#[trigger] entries[j]).0@,
    ensures
        forall|i: int|
            0 <= i < n ==> {
                let entry = #[trigger] entries[i];
                &&& entries_map(entries, n).contains_key(entry.0@)
                &&& entries_map(entries, n)[entry.0@] == entry.1
            },
        forall|key: K::V| #[trigger]
            entries_map(entries, n).contains_key(key) ==> exists|i: int|
                0 <= i < n && (#[trigger] entries[i]).0@ == key,
    decreases n,
{
    if n > 0 {
        let m = (n - 1) as nat;
        lemma_entries_map(entries, m);
        assert forall|key: K::V| #[trigger]
            entries_map(entries, n).contains_key(key) implies exists|i: int|
            0 <= i < n && (#[trigger] entries[i]).0@ == key by {
            if key == entries[m as int].0@ {
            } else {
                assert(entries_map(entries, m).contains_key(key));
            }
        }
    }
}

/// `after` holds what `before` does, but for the value of `key`.
proof fn lemma_inserted<K: View, V>(
    before: Seq<(K, V)>,
    after: Seq<(K, V)>,
    key: K::V,
    value: V,
)
    requires
        forall|i: int, j: int|
            0 <= i < j < before.len() ==> (#[trigger] before[i]).0@ != (#[trigger] before[j]).0@,
        before.len() <= after.len() <= before.len() + 1,
        forall|i: int|
            0 <= i < before.len() ==> (#[trigger] after[i]).0@ == before[i].0@ && (before[i].0@
                == key || after[i].1 == before[i].1),
        after.len() > before.len() ==> after.last().0@ == key && after.last().1 == value,
        exists|i: int| 0 <= i < after.len() && (#[trigger] after[i]).0@ == key,
        forall|i: int, j: int|
            0 <= i < j < after.len() ==> (#[trigger] after[i]).0@ != (#[trigger] after[j]).0@,
        forall|i: int|
            0 <= i < after.len() && (#[trigger] after[i]).0@ == key ==> after[i].1 == value,
    ensures
        entries_map(after, after.len()) == entries_map(before, before.len()).insert(key, value),
{
    lemma_entries_map(before, before.len());
    lemma_entries_map(after, after.len());
    let old_map = entries_map(before, before.len());
    let new_map = entries_map(after, after.len());
    assert forall|k: K::V| #[trigger] old_map.contains_key(k) implies new_map.contains_key(k) && (k
        == key || new_map[k] == old_map[k]) by {
        let i = choose|i: int| 0 <= i < before.len() && (#[trigger] before[i]).0@ == k;
        assert(after[i].0@ == k);
    }
    assert forall|k: K::V| #[trigger] new_map.contains_key(k) implies k == key
        || old_map.contains_key(k) by {
        let i = choose|i: int| 0 <= i < after.len() && (#[trigger] after[i]).0@ == k;
        if i < before.len() {
            assert(before[i].0@ == k);
        }
    }
    assert(new_map =~= old_map.insert(key, value));
}

impl<K: View, V> View for AssocMap<K, V> {
    type V = Map<K::V, V>;

    closed spec fn view(&self) -> Map<K::V, V> {
        entries_map(self.entries@, self.entries@.len())
    }
}

impl<K: Key, V> AssocMap<K, V> {
    /// No key occurs twice.
    pub closed spec fn wf(&self) -> bool {
        forall|i: int, j: int|
            0 <= i < j < self.entries@.len() ==> (#[trigger] self.entries@[i]).0@ != (
            #[trigger] self.entries@[j]).0@
    }

    /// The empty map.
    pub fn new() -> (map: Self)
        ensures
            map.wf(),
            map@ == Map::<K::V, V>::empty(),
    {
        AssocMap { entries: Vec::new() }
    }

    /// Where the entry of `key` is.
    fn position(&self, key: &K) -> (position: Option<usize>)
        requires
            self.wf(),
        ensures
            match position {
                Some(i) => {
                    &&& i < self.entries@.len()
                    &&& self.entries@[i as int].0@ == key@
                    &&& self@.contains_key(key@)
                    &&& self@[key@] == self.entries@[i as int].1
                },
                None => {
                    &&& !self@.contains_key(key@)
                    &&& forall|i: int|
                        0 <= i < self.entries@.len() ==> (#[trigger] self.entries@[i]).0@ != key@
                },
            },
    {
        proof {
            lemma_entries_map(self.entries@, self.entries@.len());
        }
        #[verifier::loop_isolation(false)]
        for i in 0..self.entries.len()
            invariant
                forall|j: int| 0 <= j < i ==> (#[trigger] self.entries@[j]).0@ != key@,
        {
            if self.entries[i].0.same(key) {
                assert(self.entries@[i as int].0@ == key@);
                return Some(i);
            }
        }
        None
    }

    /// Whether `key` has a value.
    pub fn contains_key(&self, key: &K) -> (contained: bool)
        requires
            self.wf(),
        ensures
            contained == self@.contains_key(key@),
    {
        self.position(key).is_some()
    }

    /// The value of `key`.
    pub fn get(&self, key: &K) -> (value: Option<&V>)
        requires
            self.wf(),
        ensures
            match value {
                Some(value) => self@.contains_key(key@) && self@[key@] == *value,
                None => !self@.contains_key(key@),
            },
    {
        match self.position(key) {
            Some(i) => Some(&self.entries[i].1),
            None => None,
        }
    }

    /// Makes `value` the value of `key`.
    pub fn insert(&mut self, key: K, value: V)
        requires
            old(self).wf(),
        ensures
            final(self).wf(),
            final(self)@ == old(self)@.insert(key@, value),
    {
        match self.position(&key) {
            Some(i) => {
                self.entries[i] = (key, value);
            },
            None => {
                self.entries.push((key, value));
            },
        }
        proof {
            lemma_inserted(old(self).entries@, self.entries@, key@, value);
        }
    }

    /// Access to the value of `key`.
    pub fn get_mut(&mut self, key: &K) -> (value: Option<&mut V>)
        requires
            old(self).wf(),
        ensures
            final(self).wf(),
            match value {
                Some(value) => {
                    &&& old(self)@.contains_key(key@)
                    &&& *value == old(self)@[key@]
                    &&& final(self)@ == old(self)@.insert(key@, *final(value))
                },
                None => !old(self)@.contains_key(key@) && *final(self) == *old(self),
            },
    {
        match self.position(key) {
            Some(i) => {
                let value = &mut self.entries[i].1;
                proof {
                    let before = old(self).entries@;
                    let after = before.update(i as int, (before[i as int].0, *final(value)));
                    assert(after[i as int].0@ == key@);
                    lemma_inserted(before, after, key@, *final(value));
                }
                Some(value)
            },
            None => None,
        }
    }
}

} // verus!
