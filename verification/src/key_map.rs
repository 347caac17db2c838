//! Maps whose keys are compared by what they stand for.
use vstd::prelude::*;

verus! {

/// A key of a map.
pub trait MapKey: Sized {
    /// What a key stands for.
    type Id;

    /// What this key stands for.
    spec fn id(&self) -> Self::Id;

    /// Tells whether two keys stand for the same.
    fn same_key(&self, other: &Self) -> (r: bool)
        ensures
            r == (self.id() == other.id()),
    ;
}

impl MapKey for u128 {
    type Id = u128;

    open spec fn id(&self) -> u128 {
        *self
    }

    fn same_key(&self, other: &Self) -> (r: bool) {
        *self == *other
    }
}

/// A map, held as a list of its entries.
#[derive(Debug)]
pub struct KeyMap<K: MapKey, V> {
    entries: Vec<(K, V)>,
}

/// The map that a list of entries stands for: a later entry replaces an earlier one.
spec fn entries_map<K: MapKey, V>(entries: Seq<(K, V)>) -> Map<K::Id, V>
    decreases entries.len(),
{
    if entries.len() == 0 {
        Map::empty()
    } else {
        entries_map(entries.drop_last()).insert(entries.last().0.id(), entries.last().1)
    }
}

impl<K: MapKey, V> View for KeyMap<K, V> {
    type V = Map<K::Id, V>;

    closed spec fn view(&self) -> Map<K::Id, V> {
        entries_map(self.entries@)
    }
}

proof fn absent_is_absent<K: MapKey, V>(entries: Seq<(K, V)>, id: K::Id)
    requires
        forall|k: int| 0 <= k < entries.len() ==> (#[trigger] entries[k]).0.id() != id,
    ensures
        !entries_map(entries).contains_key(id),
    decreases entries.len(),
{
    if entries.len() > 0 {
        assert(entries[entries.len() - 1].0.id() != id);
        assert forall|k: int| 0 <= k < entries.drop_last().len() implies (
        #[trigger] entries.drop_last()[k]).0.id() != id by {
            assert(entries[k].0.id() != id);
        }
        absent_is_absent(entries.drop_last(), id);
    }
}

proof fn last_match_decides<K: MapKey, V>(entries: Seq<(K, V)>, i: int, value: V)
    requires
        0 <= i < entries.len(),
        forall|k: int| i < k < entries.len() ==> (#[trigger] entries[k]).0.id() != entries[i].0.id(),
    ensures
        entries_map(entries).contains_key(entries[i].0.id()),
        entries_map(entries)[entries[i].0.id()] == entries[i].1,
        entries_map(entries.update(i, (entries[i].0, value))) == entries_map(entries).insert(
            entries[i].0.id(),
            value,
        ),
    decreases entries.len(),
{
    let id = entries[i].0.id();
    let updated = entries.update(i, (entries[i].0, value));
    let n = entries.len() - 1;
    if i == n {
        assert(updated.drop_last() =~= entries.drop_last());
        assert(entries_map(updated) =~= entries_map(entries).insert(id, value));
    } else {
        assert(entries[n].0.id() != id);
        assert forall|k: int| i < k < entries.drop_last().len() implies (
        #[trigger] entries.drop_last()[k]).0.id() != entries.drop_last()[i].0.id() by {
            assert(entries[k].0.id() != id);
        }
        last_match_decides(entries.drop_last(), i, value);
        assert(updated.drop_last() =~= entries.drop_last().update(i, (entries[i].0, value)));
        assert(entries_map(updated) =~= entries_map(entries).insert(id, value));
    }
}

proof fn removing_entry<K: MapKey, V>(entries: Seq<(K, V)>, i: int)
    requires
        0 <= i < entries.len(),
    ensures
        entries_map(entries.remove(i)).remove(entries[i].0.id()) == entries_map(entries).remove(
            entries[i].0.id(),
        ),
    decreases entries.len(),
{
    let id = entries[i].0.id();
    let n = entries.len() - 1;
    if i == n {
        assert(entries.remove(i) =~= entries.drop_last());
        assert(entries_map(entries.remove(i)).remove(id) =~= entries_map(entries).remove(id));
    } else {
        removing_entry(entries.drop_last(), i);
        assert(entries.remove(i).drop_last() =~= entries.drop_last().remove(i));
        let a = entries_map(entries.drop_last().remove(i));
        let b = entries_map(entries.drop_last());
        assert(a.remove(id) == b.remove(id));
        let last = entries.last().0.id();
        assert(entries_map(entries.remove(i)).remove(id) =~= entries_map(entries).remove(id)) by {
            assert forall|k: K::Id|
                a.insert(last, entries.last().1).remove(id).contains_key(k) == b.insert(
                    last,
                    entries.last().1,
                ).remove(id).contains_key(k) by {
                assert(a.remove(id).contains_key(k) == b.remove(id).contains_key(k));
            }
            assert forall|k: K::Id|
                a.insert(last, entries.last().1).remove(id).contains_key(k) implies a.insert(
                last,
                entries.last().1,
            ).remove(id)[k] == b.insert(last, entries.last().1).remove(id)[k] by {
                if k != last {
                    assert(a.remove(id).contains_key(k));
                    assert(a.remove(id)[k] == b.remove(id)[k]);
                }
            }
        }
    }
}

impl<K: MapKey, V> KeyMap<K, V> {
    /// A map without entries.
    pub fn new() -> (r: Self)
        ensures
            r@ == Map::<K::Id, V>::empty(),
    {
        KeyMap { entries: Vec::new() }
    }

    fn find(&self, key: &K) -> (r: Option<usize>)
        ensures
            match r {
                Some(i) => i < self.entries@.len() && self.entries@[i as int].0.id() == key.id()
                    && forall|k: int|
                    i < k < self.entries@.len() ==> (#[trigger] self.entries@[k]).0.id()
                        != key.id(),
                None => forall|k: int|
                    0 <= k < self.entries@.len() ==> (#[trigger] self.entries@[k]).0.id()
                        != key.id(),
            },
    {
        let mut i: usize = self.entries.len();
        while i > 0
            invariant
                i <= self.entries@.len(),
                forall|k: int|
                    i <= k < self.entries@.len() ==> (#[trigger] self.entries@[k]).0.id()
                        != key.id(),
            decreases i,
        {
            if self.entries[i - 1].0.same_key(key) {
                return Some(i - 1);
            }
            i = i - 1;
        }
        None
    }

    /// The value of a key.
    pub fn get(&self, key: &K) -> (r: Option<&V>)
        ensures
            match r {
                Some(v) => self@.contains_key(key.id()) && *v == self@[key.id()],
                None => !self@.contains_key(key.id()),
            },
    {
        match self.find(key) {
            Some(i) => {
                proof {
                    last_match_decides(self.entries@, i as int, self.entries@[i as int].1);
                }
                Some(&self.entries[i].1)
            },
            None => {
                proof {
                    absent_is_absent(self.entries@, key.id());
                }
                None
            },
        }
    }

    /// Tells whether a key has a value.
    pub fn contains_key(&self, key: &K) -> (r: bool)
        ensures
            r == self@.contains_key(key.id()),
    {
        self.get(key).is_some()
    }

    /// Gives a key a value.
    pub fn insert(&mut self, key: K, value: V)
        ensures
            final(self)@ == old(self)@.insert(key.id(), value),
    {
        match self.find(&key) {
            Some(i) => {
                let ghost before = self.entries@;
                proof {
                    last_match_decides(before, i as int, value);
                }
                self.entries[i].1 = value;
                assert(self.entries@ =~= before.update(i as int, (before[i as int].0, value)));
            },
            None => {
                let ghost before = self.entries@;
                self.entries.push((key, value));
                assert(self.entries@.drop_last() =~= before);
            },
        }
    }

    /// Takes the value of a key out of the map.
    pub fn remove(&mut self, key: &K) -> (r: Option<V>)
        ensures
            final(self)@ == old(self)@.remove(key.id()),
            match r {
                Some(v) => old(self)@.contains_key(key.id()) && v == old(self)@[key.id()],
                None => !old(self)@.contains_key(key.id()),
            },
    {
        let first: Option<V> = match self.find(key) {
            Some(i) => {
                proof {
                    last_match_decides(self.entries@, i as int, self.entries@[i as int].1);
                    removing_entry(self.entries@, i as int);
                }
                Some(self.entries.remove(i).1)
            },
            None => {
                proof {
                    absent_is_absent(self.entries@, key.id());
                    assert(self@.remove(key.id()) =~= self@);
                }
                return None;
            },
        };
        let mut more = true;
        while more
            invariant
                self@.remove(key.id()) == old(self)@.remove(key.id()),
                !more ==> !self@.contains_key(key.id()),
            decreases self.entries@.len() + (if more {
                1nat
            } else {
                0nat
            }),
        {
            match self.find(key) {
                Some(i) => {
                    proof {
                        removing_entry(self.entries@, i as int);
                    }
                    let _ = self.entries.remove(i);
                },
                None => {
                    proof {
                        absent_is_absent(self.entries@, key.id());
                    }
                    more = false;
                },
            }
        }
        assert(self@ =~= self@.remove(key.id()));
        first
    }

    /// Takes every entry out of the map.
    pub fn clear(&mut self)
        ensures
            final(self)@ == Map::<K::Id, V>::empty(),
    {
        self.entries = Vec::new();
    }

    /// Tells whether no key has a value.
    pub fn is_empty(&self) -> (r: bool)
        ensures
            r == (self@ == Map::<K::Id, V>::empty()),
    {
        if self.entries.len() == 0 {
            true
        } else {
            assert(self@.contains_key(self.entries@.last().0.id()));
            false
        }
    }
}

} // verus!
