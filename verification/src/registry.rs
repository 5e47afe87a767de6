//! Name registries that remember the order of registration.

use indexmap::IndexMap;
use vstd::prelude::*;

verus! {

/// `indexmap::IndexMap`, carried opaquely.
#[verifier::external_type_specification]
#[verifier::external_body]
#[verifier::reject_recursive_types(K)]
#[verifier::reject_recursive_types(V)]
#[verifier::reject_recursive_types(S)]
pub struct ExIndexMap<K, V, S>(indexmap::IndexMap<K, V, S>);

/// The entries of an index, in its order.
pub uninterp spec fn index_entries(index: IndexMap<String, usize>) -> Seq<(Seq<char>, usize)>;

/// The value stored under `key`, if any.
pub open spec fn lookup(entries: Seq<(Seq<char>, usize)>, key: Seq<char>) -> Option<usize>
    decreases entries.len(),
{
    if entries.len() == 0 {
        None
    } else if entries[0].0 == key {
        Some(entries[0].1)
    } else {
        lookup(entries.drop_first(), key)
    }
}

/// `IndexMap::new` makes an index without entries.
#[verifier::external_body]
fn index_new() -> (r: IndexMap<String, usize>)
    ensures
        index_entries(r) == Seq::<(Seq<char>, usize)>::empty(),
{
    IndexMap::new()
}

/// `IndexMap::get` finds the value stored under a key.
#[verifier::external_body]
fn index_get(index: &IndexMap<String, usize>, key: &str) -> (r: Option<usize>)
    ensures
        r == lookup(index_entries(*index), key@),
{
    index.get(key).copied()
}

/// `IndexMap::insert` puts an entry with a new key behind all others; of an
/// entry whose key was there before, only the value changes.
#[verifier::external_body]
fn index_insert(index: &mut IndexMap<String, usize>, key: String, value: usize)
    ensures
        lookup(index_entries(*old(index)), key@) is None ==> index_entries(*final(index))
            == index_entries(*old(index)).push((key@, value)),
        forall|i: int|
            0 <= i < index_entries(*old(index)).len() && index_entries(*old(index))[i].0 == key@
                ==> index_entries(*final(index)) == #[trigger] index_entries(*old(index)).update(
                i,
                (key@, value),
            ),
{
    index.insert(key, value);
}

/// Values registered under distinct names, in order of first registration.
pub struct Registry<V> {
    index: IndexMap<String, usize>,
    items: Vec<V>,
}

proof fn lemma_lookup(entries: Seq<(Seq<char>, usize)>, key: Seq<char>)
    ensures
        match lookup(entries, key) {
            Some(v) => exists|i: int|
                0 <= i < entries.len() && (#[trigger] entries[i]) == (key, v),
            None => forall|i: int| 0 <= i < entries.len() ==> (#[trigger] entries[i]).0 != key,
        },
    decreases entries.len(),
{
    if entries.len() > 0 && entries[0].0 != key {
        let rest = entries.drop_first();
        lemma_lookup(rest, key);
        match lookup(rest, key) {
            Some(v) => {
                let j = choose|i: int| 0 <= i < rest.len() && (#[trigger] rest[i]) == (key, v);
                assert(entries[j + 1] == (key, v));
            },
            None => {
                assert forall|i: int| 0 <= i < entries.len() implies (
                #[trigger] entries[i]).0 != key by {
                    if i > 0 {
                        assert(entries[i] == rest[i - 1]);
                    }
                }
            },
        }
    } else if entries.len() > 0 {
        assert(entries[0] == (key, entries[0].1));
    }
}

proof fn lemma_find_after_update<V>(
    before: Registry<V>,
    after: Registry<V>,
    key: Seq<char>,
    value: V,
)
    requires
        before.paired(),
        before.keys().contains(key),
        after.keys() == before.keys(),
        after.values() == before.values().update(before.keys().index_of(key), value),
    ensures
        forall|name: Seq<char>| #[trigger]
            after.find(name) == (if name == key {
                Some(value)
            } else {
                before.find(name)
            }),
        after.paired(),
{
    let keys = before.keys();
    let place = keys.index_of(key);
    assert(keys[place] == key);
    assert forall|name: Seq<char>| #[trigger]
        after.find(name) == (if name == key {
            Some(value)
        } else {
            before.find(name)
        }) by {
        if name != key && keys.contains(name) {
            assert(keys[keys.index_of(name)] == name);
        }
    }
}

proof fn lemma_find_after_push<V>(
    before: Registry<V>,
    after: Registry<V>,
    key: Seq<char>,
    value: V,
)
    requires
        before.paired(),
        !before.keys().contains(key),
        after.keys() == before.keys().push(key),
        after.values() == before.values().push(value),
    ensures
        forall|name: Seq<char>| #[trigger]
            after.find(name) == (if name == key {
                Some(value)
            } else {
                before.find(name)
            }),
        after.paired(),
{
    let keys = before.keys();
    let more = after.keys();
    assert(more[keys.len() as int] == key);
    assert forall|name: Seq<char>| #[trigger]
        after.find(name) == (if name == key {
            Some(value)
        } else {
            before.find(name)
        }) by {
        if more.contains(name) {
            let k = more.index_of(name);
            assert(more[k] == name);
            if k < keys.len() {
                assert(keys[k] == name);
                let j = keys.index_of(name);
                assert(keys[j] == name);
                assert(j == k);
            }
        } else if keys.contains(name) {
            let j = keys.index_of(name);
            assert(more[j] == keys[j]);
        }
        if keys.contains(name) {
            let j = keys.index_of(name);
            assert(keys[j] == name);
            assert(more[j] == name);
        }
    }
    assert forall|a: int, b: int|
        0 <= a < more.len() && 0 <= b < more.len() && a != b implies more[a] != more[b] by {
        if a < keys.len() {
            assert(more[a] == keys[a]);
            assert(keys.contains(keys[a]));
        }
        if b < keys.len() {
            assert(more[b] == keys[b]);
            assert(keys.contains(keys[b]));
        }
    }
}

impl<V> Registry<V> {
    /// The registered names, in order.
    pub closed spec fn keys(self) -> Seq<Seq<char>> {
        index_entries(self.index).map_values(|e: (Seq<char>, usize)| e.0)
    }

    /// The registered values, each at the position of its name.
    pub closed spec fn values(self) -> Seq<V> {
        self.items@
    }

    /// The value registered under `key`.
    pub open spec fn find(self, key: Seq<char>) -> Option<V> {
        if self.keys().contains(key) {
            Some(self.values()[self.keys().index_of(key)])
        } else {
            None
        }
    }

    #[verifier::type_invariant]
    spec fn inv(self) -> bool {
        let entries = index_entries(self.index);
        &&& entries.len() == self.items.len()
        &&& forall|i: int| 0 <= i < entries.len() ==> (#[trigger] entries[i]).1 == i
        &&& forall|i: int, j: int|
            0 <= i < j < entries.len() ==> (#[trigger] entries[i]).0 != (#[trigger] entries[j]).0
    }

    /// Names and values stand side by side, and no name occurs twice.
    pub open spec fn paired(self) -> bool {
        &&& self.keys().len() == self.values().len()
        &&& self.keys().no_duplicates()
    }

    /// A registry without entries.
    pub fn new() -> (r: Self)
        ensures
            r.keys() == Seq::<Seq<char>>::empty(),
            r.values() == Seq::<V>::empty(),
            forall|name: Seq<char>| (#[trigger] r.find(name)) is None,
    {
        let r = Registry { index: index_new(), items: Vec::new() };
        assert(r.keys() =~= Seq::<Seq<char>>::empty());
        r
    }

    fn position(&self, key: &str) -> (r: Option<usize>)
        ensures
            match r {
                Some(p) => self.keys().contains(key@) && p == self.keys().index_of(key@) && p
                    < self.items.len() && index_entries(self.index)[p as int].0 == key@
                    && index_entries(self.index)[p as int].1 == p,
                None => !self.keys().contains(key@) && lookup(index_entries(self.index), key@)
                    is None,
            },
    {
        proof {
            use_type_invariant(self);
            lemma_lookup(index_entries(self.index), key@);
        }
        let found = index_get(&self.index, key);
        proof {
            let entries = index_entries(self.index);
            match found {
                Some(p) => {
                    let i = choose|i: int|
                        0 <= i < entries.len() && (#[trigger] entries[i]) == (key@, p);
                    assert(self.keys()[i] == key@);
                    let j = self.keys().index_of(key@);
                    assert(self.keys()[j] == key@);
                    assert(entries[j].0 == key@);
                    assert(i == j);
                },
                None => {
                    assert forall|i: int| 0 <= i < self.keys().len() implies self.keys()[i]
                        != key@ by {
                        assert(self.keys()[i] == entries[i].0);
                    }
                },
            }
        }
        found
    }

    /// Whether a value is registered under `key`.
    pub fn contains(&self, key: &str) -> (r: bool)
        ensures
            r == self.keys().contains(key@),
            self.paired(),
    {
        proof {
            use_type_invariant(self);
        }
        self.position(key).is_some()
    }

    /// Looks up the value registered under `key`.
    pub fn get(&self, key: &str) -> (r: Option<&V>)
        ensures
            match r {
                Some(v) => self.find(key@) == Some(*v),
                None => self.find(key@) is None,
            },
            self.paired(),
    {
        proof {
            use_type_invariant(self);
        }
        match self.position(key) {
            Some(p) => Some(&self.items[p]),
            None => None,
        }
    }

    /// The values in order of registration.
    pub fn items(&self) -> (r: &Vec<V>)
        ensures
            r@ == self.values(),
            self.paired(),
    {
        proof {
            use_type_invariant(self);
        }
        &self.items
    }

    /// Registers a value; a name registered before keeps its place and takes
    /// the new value.
    pub fn insert(self, key: String, value: V) -> (r: Self)
        ensures
            self.keys().contains(key@) ==> r.keys() == self.keys() && r.values()
                == self.values().update(self.keys().index_of(key@), value),
            !self.keys().contains(key@) ==> r.keys() == self.keys().push(key@) && r.values()
                == self.values().push(value),
            forall|name: Seq<char>| #[trigger]
                r.find(name) == (if name == key@ {
                    Some(value)
                } else {
                    self.find(name)
                }),
            r.paired(),
    {
        proof {
            use_type_invariant(&self);
        }
        let position = self.position(key.as_str());
        let ghost before = self;
        let Registry { index: old_index, items: old_items } = self;
        let mut index = old_index;
        let mut items = old_items;
        match position {
            Some(p) => {
                items.set(p, value);
                let r = Registry { index, items };
                proof {
                    lemma_find_after_update(before, r, key@, value);
                }
                r
            },
            None => {
                proof {
                    lemma_lookup(index_entries(index), key@);
                }
                let ghost name = key@;
                index_insert(&mut index, key, items.len());
                items.push(value);
                let r = Registry { index, items };
                proof {
                    assert(r.keys() =~= before.keys().push(name));
                    lemma_find_after_push(before, r, name, value);
                }
                r
            },
        }
    }
}

impl<T> Registry<Vec<T>> {
    /// Appends a value to the list registered under `key`, which starts empty.
    pub fn append_to(self, key: String, value: T) -> (r: Self)
        ensures
            self.keys().contains(key@) ==> {
                let i = self.keys().index_of(key@);
                &&& r.keys() == self.keys()
                &&& r.values().len() == self.values().len()
                &&& r.values()[i]@ == self.values()[i]@.push(value)
                &&& forall|j: int|
                    0 <= j < self.values().len() && j != i ==> r.values()[j] == self.values()[j]
            },
            !self.keys().contains(key@) ==> {
                &&& r.keys() == self.keys().push(key@)
                &&& r.values().len() == self.values().len() + 1
                &&& r.values().last()@ == seq![value]
                &&& forall|j: int|
                    0 <= j < self.values().len() ==> r.values()[j] == self.values()[j]
            },
    {
        proof {
            use_type_invariant(&self);
        }
        let position = self.position(key.as_str());
        match position {
            Some(p) => {
                let Registry { index, items: old_items } = self;
                let mut items = old_items;
                items[p].push(value);
                Registry { index, items }
            },
            None => {
                let mut group: Vec<T> = Vec::new();
                group.push(value);
                assert(group@ =~= seq![value]);
                self.insert(key, group)
            },
        }
    }
}

} // verus!
