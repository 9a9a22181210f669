//! A table of things by name.
use vstd::prelude::*;

verus! {

/// Things by name. A name stands for at most one thing.
pub struct NameTable<V> {
    entries: Vec<(String, V)>,
}

impl<V> NameTable<V> {
    /// Whether the thing at position `i` has the name `name`.
    spec fn names(self, i: int, name: Seq<char>) -> bool {
        0 <= i < self.entries@.len() && self.entries@[i].0@ == name
    }

    /// The names, in the order in which they first came into the table.
    pub closed spec fn order(self) -> Seq<Seq<char>> {
        self.entries@.map_values(|entry: (String, V)| entry.0@)
    }

    /// No name occurs twice.
    #[verifier::type_invariant]
    pub closed spec fn wf(self) -> bool {
        forall|i: int, j: int, name: Seq<char>| #[trigger]
            self.names(i, name) && #[trigger] self.names(j, name) ==> i == j
    }
}

impl<V> View for NameTable<V> {
    type V = Map<Seq<char>, V>;

    closed spec fn view(&self) -> Map<Seq<char>, V> {
        Map::new(
            |name: Seq<char>| exists|i: int| self.names(i, name),
            |name: Seq<char>| self.entries@[choose|i: int| self.names(i, name)].1,
        )
    }
}

impl<V> NameTable<V> {
    proof fn lemma_at(self, i: int, name: Seq<char>)
        requires
            self.wf(),
            self.names(i, name),
        ensures
            self@.contains_key(name),
            self@[name] == self.entries@[i].1,
    {
    }

    /// The names in the order are those of the table, each of them once.
    pub proof fn lemma_order(self)
        requires
            self.wf(),
        ensures
            self.order().no_duplicates(),
            forall|name: Seq<char>| self.order().contains(name) <==> self@.contains_key(name),
    {
        assert forall|name: Seq<char>| self.order().contains(name) implies self@.contains_key(
            name,
        ) by {
            let i = choose|i: int| 0 <= i < self.order().len() && self.order()[i] == name;
            assert(self.names(i, name));
        }
        assert forall|i: int, j: int|
            0 <= i < self.order().len() && 0 <= j < self.order().len() && i
                != j implies self.order()[i] != self.order()[j] by {
            assert(self.names(i, self.order()[i]));
            assert(self.names(j, self.order()[j]));
        }
        assert forall|name: Seq<char>| self@.contains_key(name) implies self.order().contains(
            name,
        ) by {
            let i = choose|i: int| self.names(i, name);
            assert(self.order()[i] == name);
        }
    }

    pub fn new() -> (table: Self)
        ensures
            table@ == Map::<Seq<char>, V>::empty(),
            table.order() == Seq::<Seq<char>>::empty(),
    {
        NameTable { entries: Vec::new() }
    }

    /// The position of a name.
    fn position(&self, name: &String) -> (found: Option<usize>)
        ensures
            match found {
                Some(i) => self.names(i as int, name@),
                None => forall|i: int| !self.names(i, name@),
            },
    {
        for i in 0..self.entries.len()
            invariant
                forall|j: int| 0 <= j < i ==> !self.names(j, name@),
        {
            if self.entries[i].0 == *name {
                return Some(i);
            }
        }
        None
    }

    /// Puts a thing under a name, in place of the one before.
    pub fn insert(&mut self, name: &str, value: V)
        ensures
            final(self)@ == old(self)@.insert(name@, value),
            final(self).order() == (if old(self)@.contains_key(name@) {
                old(self).order()
            } else {
                old(self).order().push(name@)
            }),
    {
        proof {
            use_type_invariant(&*self);
        }
        let name: String = name.to_owned();
        let found: Option<usize> = self.position(&name);
        let ghost before: Self = *self;
        let ghost key: Seq<char> = name@;
        let mut entries: Vec<(String, V)> = Vec::new();
        std::mem::swap(&mut entries, &mut self.entries);
        let ghost at: int;
        match found {
            Some(i) => {
                proof {
                    at = i as int;
                }
                entries[i] = (name, value);
            },
            None => {
                proof {
                    at = before.entries@.len() as int;
                }
                entries.push((name, value));
            },
        }
        proof {
            lemma_insert(before, NameTable { entries }, at, key, value);
        }
        self.entries = entries;
    }

    /// The thing under a name.
    pub fn get(&self, name: &str) -> (value: Option<&V>)
        ensures
            value == (if self@.contains_key(name@) {
                Some(&self@[name@])
            } else {
                None
            }),
    {
        proof {
            use_type_invariant(self);
        }
        let name: String = name.to_owned();
        match self.position(&name) {
            Some(i) => {
                proof {
                    self.lemma_at(i as int, name@);
                }
                Some(&self.entries[i].1)
            },
            None => None,
        }
    }

    pub fn len(&self) -> (len: usize)
        ensures
            len == self.order().len(),
    {
        self.entries.len()
    }

    /// The thing under the name at position `i` of the order.
    pub fn value_at(&self, i: usize) -> (value: &V)
        requires
            i < self.order().len(),
        ensures
            self@.contains_key(self.order()[i as int]),
            *value == self@[self.order()[i as int]],
    {
        proof {
            use_type_invariant(self);
            self.lemma_at(i as int, self.order()[i as int]);
        }
        &self.entries[i].1
    }
}

/// Setting the entry `at` to `key` and `value` is inserting them, where `at` is
/// the position of `key`, or that after the last one if there is none.
proof fn lemma_insert<V>(
    before: NameTable<V>,
    after: NameTable<V>,
    at: int,
    key: Seq<char>,
    value: V,
)
    requires
        before.wf(),
        before.names(at, key) || (at == before.entries@.len() && forall|i: int|
            !before.names(i, key)),
        after.entries@.len() == if at == before.entries@.len() {
            before.entries@.len() + 1
        } else {
            before.entries@.len()
        },
        after.entries@[at].0@ == key,
        after.entries@[at].1 == value,
        forall|i: int|
            0 <= i < before.entries@.len() && i != at ==> after.entries@[i] == before.entries@[i],
    ensures
        after.wf(),
        after@ == before@.insert(key, value),
        after.order() == (if before@.contains_key(key) {
            before.order()
        } else {
            before.order().push(key)
        }),
{
    assert forall|j: int, k: Seq<char>| #[trigger] after.names(j, k) implies before.names(j, k) || (
    j == at && k == key) by {
        if j != at {
            assert(after.entries@[j] == before.entries@[j]);
        }
    }
    assert forall|j: int, k: Seq<char>| #[trigger] before.names(j, k) implies after.names(j, k) by {
        if j != at {
            assert(after.entries@[j] == before.entries@[j]);
        }
    }
    assert(after.names(at, key));
    assert forall|i: int, j: int, k: Seq<char>| #[trigger]
        after.names(i, k) && #[trigger] after.names(j, k) implies i == j by {
        assert(before.names(i, k) || (i == at && k == key));
        assert(before.names(j, k) || (j == at && k == key));
    }
    assert forall|k: Seq<char>| #[trigger] after@.contains_key(k) implies before@.insert(
        key,
        value,
    ).contains_key(k) && after@[k] == before@.insert(key, value)[k] by {
        let j = choose|j: int| after.names(j, k);
        after.lemma_at(j, k);
        if k == key {
            after.lemma_at(at, k);
        } else {
            assert(before.names(j, k));
            before.lemma_at(j, k);
        }
    }
    assert forall|k: Seq<char>| #[trigger]
        before@.insert(key, value).contains_key(k) implies after@.contains_key(k) by {
        if k != key {
            let j = choose|j: int| before.names(j, k);
            assert(after.names(j, k));
        }
    }
    assert(after@ =~= before@.insert(key, value));
    assert(after.order() =~= (if before@.contains_key(key) {
        before.order()
    } else {
        before.order().push(key)
    }));
}

} // verus!
