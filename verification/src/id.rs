//! Stable identifiers, and a small table keyed by them.

use vstd::prelude::*;

verus! {

/// The purposes for which a widget derives an identifier from its own.
#[derive(Clone, Copy, Debug, PartialEq, Eq, Hash, Structural)]
pub enum IdSalt {
    /// The drag handle on a panel's inner edge.
    Resize,
    /// The progress of a panel's expand and collapse animation.
    Animation,
    /// The stand-in panel shown while that animation runs.
    AnimatingPanel,
    /// The central panel of a viewport.
    CentralPanel,
    /// A region that was given no identifier of its own.
    Auto,
}

/// The number that stands for a salt in a derivation path, from 1 to 5.
pub open spec fn salt_code(salt: IdSalt) -> u64 {
    match salt {
        IdSalt::Resize => 1,
        IdSalt::Animation => 2,
        IdSalt::AnimatingPanel => 3,
        IdSalt::CentralPanel => 4,
        IdSalt::Auto => 5,
    }
}

/// A derivation path below this bound can take one more salt.
pub const PATH_LIMIT: u64 = 0x1000_0000_0000_0000;

/// A stable identifier: the caller's key, and the path of salts by which the
/// identifier was derived from it, as digits in base 8.
#[derive(Clone, Copy, Debug, PartialEq, Eq, Hash, Structural)]
pub struct Id {
    pub key: u64,
    pub path: u64,
}

impl Id {
    /// The identifier of the caller's own key, with an empty path.
    pub open spec fn spec_new(key: u64) -> Id {
        Id { key, path: 0 }
    }

    /// The identifier of the caller's own key, with an empty path.
    #[verifier::when_used_as_spec(spec_new)]
    pub fn new(key: u64) -> (id: Id)
        ensures
            id == Id::spec_new(key),
    {
        Id { key, path: 0 }
    }

    /// The identifier derived by one more salt. A path of twenty salts is
    /// full: a derivation from it starts the path over with the salt alone.
    /// So the result differs from the identifier that it was derived from
    /// in every case, and two salts give two identifiers.
    pub open spec fn spec_with(self, salt: IdSalt) -> Id {
        if self.path < PATH_LIMIT {
            Id { key: self.key, path: (self.path * 8 + salt_code(salt)) as u64 }
        } else {
            Id { key: self.key, path: salt_code(salt) }
        }
    }

    /// The identifier derived by one more salt. A path of twenty salts is
    /// full: a derivation from it starts the path over with the salt alone.
    /// So the result differs from the identifier that it was derived from
    /// in every case, and two salts give two identifiers.
    #[verifier::when_used_as_spec(spec_with)]
    pub fn with(self, salt: IdSalt) -> (id: Id)
        ensures
            id == self.spec_with(salt),
            id != self,
            id.key == self.key,
    {
        let code: u64 = match salt {
            IdSalt::Resize => 1,
            IdSalt::Animation => 2,
            IdSalt::AnimatingPanel => 3,
            IdSalt::CentralPanel => 4,
            IdSalt::Auto => 5,
        };
        if self.path < PATH_LIMIT {
            Id { key: self.key, path: self.path * 8 + code }
        } else {
            Id { key: self.key, path: code }
        }
    }

    /// A derived identifier differs from the one it was derived from, and two
    /// salts give two identifiers, whatever the path. While the path is not
    /// full, the derivation can be undone: the path that it came from is the
    /// new path without its last digit.
    pub proof fn lemma_with_distinct(self, a: IdSalt, b: IdSalt)
        ensures
            self.spec_with(a) != self,
            a != b ==> self.spec_with(a) != self.spec_with(b),
            self.spec_with(a).key == self.key,
            self.path < PATH_LIMIT ==> self.spec_with(a).path / 8 == self.path,
    {
    }
}

/// A table from identifiers to values, in insertion order. A key occurs at
/// most once when the table is only ever changed through `insert`; lookups
/// take the first occurrence in any case.
#[derive(Debug, PartialEq, Eq)]
pub struct IdMap<V> {
    pub entries: Vec<(Id, V)>,
}

/// The value at the first entry of `entries` whose key is `id`. The tables of
/// this crate are sequences of pairs, searched from the front.
pub open spec fn find<K, V>(entries: Seq<(K, V)>, id: K) -> Option<V>
    decreases entries.len(),
{
    if entries.len() == 0 {
        None
    } else if entries[0].0 == id {
        Some(entries[0].1)
    } else {
        find(entries.subrange(1, entries.len() as int), id)
    }
}

/// Looking up past a prefix without the key gives the same result.
pub proof fn lemma_find_skip<K, V>(entries: Seq<(K, V)>, id: K, n: int)
    requires
        0 <= n <= entries.len(),
        forall|j: int| 0 <= j < n ==> entries[j].0 != id,
    ensures
        find(entries, id) == find(entries.subrange(n, entries.len() as int), id),
    decreases n,
{
    if n == 0 {
        assert(entries.subrange(0, entries.len() as int) =~= entries);
    } else {
        let rest = entries.subrange(1, entries.len() as int);
        lemma_find_skip(rest, id, n - 1);
        assert(rest.subrange(n - 1, rest.len() as int) =~= entries.subrange(n, entries.len() as int));
    }
}

/// Appending an entry for a key answers that key where it was absent and
/// leaves every other key's answer.
pub proof fn lemma_find_push<K, V>(entries: Seq<(K, V)>, id: K, value: V, other: K)
    ensures
        find(entries.push((id, value)), other) == if find(entries, other).is_some() {
            find(entries, other)
        } else if other == id {
            Some(value)
        } else {
            None
        },
    decreases entries.len(),
{
    let pushed = entries.push((id, value));
    if entries.len() == 0 {
        assert(pushed.subrange(1, 1) =~= Seq::<(K, V)>::empty());
        assert(find(Seq::<(K, V)>::empty(), other).is_none());
        assert(pushed[0] == (id, value));
    } else {
        let rest = entries.subrange(1, entries.len() as int);
        lemma_find_push(rest, id, value, other);
        assert(pushed.subrange(1, pushed.len() as int) =~= rest.push((id, value)));
    }
}

/// Replacing the value of an entry, its key kept, changes the answer for that
/// key alone, and for it only where the entry is the first with the key.
pub proof fn lemma_find_update<K, V>(entries: Seq<(K, V)>, at: int, value: V, other: K)
    requires
        0 <= at < entries.len(),
        forall|j: int| 0 <= j < at ==> entries[j].0 != entries[at].0,
    ensures
        find(entries.update(at, (entries[at].0, value)), other) == if other == entries[at].0 {
            Some(value)
        } else {
            find(entries, other)
        },
    decreases entries.len(),
{
    let id = entries[at].0;
    let updated = entries.update(at, (id, value));
    let rest = entries.subrange(1, entries.len() as int);
    if at == 0 {
        assert(updated.subrange(1, updated.len() as int) =~= rest);
    } else {
        lemma_find_update(rest, at - 1, value, other);
        assert(updated.subrange(1, updated.len() as int) =~= rest.update(at - 1, (id, value)));
    }
}

/// The map that a sequence of pairs stands for: each key with the value of
/// its first entry.
pub open spec fn as_map<K, V>(entries: Seq<(K, V)>) -> Map<K, V> {
    Map::new(|k: K| find(entries, k).is_some(), |k: K| find(entries, k).unwrap())
}

/// Appending an entry for an absent key inserts it in the map.
pub proof fn lemma_as_map_push<K, V>(entries: Seq<(K, V)>, id: K, value: V)
    requires
        find(entries, id).is_none(),
    ensures
        as_map(entries.push((id, value))) == as_map(entries).insert(id, value),
{
    assert forall|other: K| true implies #[trigger] find(entries.push((id, value)), other) == if find(
        entries,
        other,
    ).is_some() {
        find(entries, other)
    } else if other == id {
        Some(value)
    } else {
        None
    } by {
        lemma_find_push(entries, id, value, other);
    }
    assert(as_map(entries.push((id, value))) =~= as_map(entries).insert(id, value));
}

/// Replacing the value of the first entry of a key inserts it in the map.
pub proof fn lemma_as_map_update<K, V>(entries: Seq<(K, V)>, at: int, value: V)
    requires
        0 <= at < entries.len(),
        forall|j: int| 0 <= j < at ==> entries[j].0 != entries[at].0,
    ensures
        as_map(entries.update(at, (entries[at].0, value))) == as_map(entries).insert(
            entries[at].0,
            value,
        ),
{
    let id = entries[at].0;
    assert forall|other: K| true implies #[trigger] find(entries.update(at, (id, value)), other) == if other
        == id {
        Some(value)
    } else {
        find(entries, other)
    } by {
        lemma_find_update(entries, at, value, other);
    }
    assert(as_map(entries.update(at, (id, value))) =~= as_map(entries).insert(id, value));
}

impl<V> View for IdMap<V> {
    type V = Map<Id, V>;

    open spec fn view(&self) -> Map<Id, V> {
        as_map(self.entries@)
    }
}

/// What a map answers for a key.
pub open spec fn lookup<K, V>(map: Map<K, V>, key: K) -> Option<V> {
    if map.dom().contains(key) {
        Some(map[key])
    } else {
        None
    }
}

impl<V: Copy> IdMap<V> {
    /// The empty table.
    pub fn new() -> (m: IdMap<V>)
        ensures
            m@ == Map::<Id, V>::empty(),
    {
        let m = IdMap { entries: Vec::new() };
        proof {
            assert(m@ =~= Map::<Id, V>::empty());
        }
        m
    }

    /// The index of the first entry whose key is `id`.
    fn position(&self, id: Id) -> (at: Option<usize>)
        ensures
            match at {
                Some(i) => i < self.entries.len() && self.entries[i as int].0 == id
                    && forall|j: int| 0 <= j < i ==> self.entries[j].0 != id,
                None => forall|j: int| 0 <= j < self.entries.len() ==> self.entries[j].0 != id,
            },
    {
        let mut i: usize = 0;
        while i < self.entries.len()
            invariant
                i <= self.entries.len(),
                forall|j: int| 0 <= j < i ==> self.entries[j].0 != id,
            decreases self.entries.len() - i,
        {
            if self.entries[i].0 == id {
                return Some(i);
            }
            i += 1;
        }
        None
    }

    /// The value stored for `id`, if any.
    pub fn get(&self, id: Id) -> (v: Option<V>)
        ensures
            v == lookup(self@, id),
    {
        match self.position(id) {
            Some(i) => {
                proof {
                    lemma_find_skip(self.entries@, id, i as int);
                }
                Some(self.entries[i].1)
            },
            None => {
                proof {
                    lemma_find_skip(self.entries@, id, self.entries.len() as int);
                }
                None
            },
        }
    }

    /// Stores `value` for `id` and returns what was stored before.
    pub fn insert(&mut self, id: Id, value: V) -> (before: Option<V>)
        ensures
            before == lookup(old(self)@, id),
            final(self)@ == old(self)@.insert(id, value),
    {
        match self.position(id) {
            Some(i) => {
                let before = self.entries[i].1;
                proof {
                    lemma_find_skip(self.entries@, id, i as int);
                    lemma_as_map_update(self.entries@, i as int, value);
                }
                self.entries[i] = (id, value);
                Some(before)
            },
            None => {
                proof {
                    lemma_find_skip(self.entries@, id, self.entries.len() as int);
                    lemma_as_map_push(self.entries@, id, value);
                }
                self.entries.push((id, value));
                None
            },
        }
    }
}

} // verus!
