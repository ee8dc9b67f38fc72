//! A table keyed by name, the store behind the caches of this crate.
//!
//! Names are compared as sequences of characters. The table is a vector of
//! entries in which the last entry of a name is the one that counts; lookups
//! walk it from the end, so its view as a map needs no further invariant.

use vstd::prelude::*;

verus! {

/// One named value.
#[derive(Debug)]
struct Entry<V> {
    name: String,
    value: V,
}

/// A map from names to values.
#[derive(Debug)]
pub struct NameTable<V> {
    entries: Vec<Entry<V>>,
}

/// The map that a sequence of entries stands for: later entries win.
spec fn entries_map<V>(entries: Seq<Entry<V>>) -> Map<Seq<char>, V>
    decreases entries.len(),
{
    if entries.len() == 0 {
        Map::empty()
    } else {
        entries_map(entries.drop_last()).insert(entries.last().name@, entries.last().value)
    }
}

/// `i` is the position of the last entry named `name`.
spec fn last_named<V>(entries: Seq<Entry<V>>, name: Seq<char>, i: int) -> bool {
    &&& 0 <= i < entries.len()
    &&& entries[i].name@ == name
    &&& forall|k: int| i < k < entries.len() ==> (#[trigger] entries[k]).name@ != name
}

/// No entry is named `name`.
spec fn unnamed<V>(entries: Seq<Entry<V>>, name: Seq<char>) -> bool {
    forall|k: int| 0 <= k < entries.len() ==> (#[trigger] entries[k]).name@ != name
}

proof fn lemma_unnamed<V>(entries: Seq<Entry<V>>, name: Seq<char>)
    requires
        unnamed(entries, name),
    ensures
        !entries_map(entries).contains_key(name),
    decreases entries.len(),
{
    if entries.len() > 0 {
        assert(entries.last() == entries[entries.len() - 1]);
        let rest = entries.drop_last();
        assert forall|k: int| 0 <= k < rest.len() implies (#[trigger] rest[k]).name@ != name by {
            assert(rest[k] == entries[k]);
        }
        lemma_unnamed(rest, name);
    }
}

proof fn lemma_last_named<V>(entries: Seq<Entry<V>>, name: Seq<char>, i: int)
    requires
        last_named(entries, name, i),
    ensures
        entries_map(entries).contains_key(name),
        entries_map(entries)[name] == entries[i].value,
    decreases entries.len(),
{
    let last = entries.len() - 1;
    assert(entries.last() == entries[last]);
    if i < last {
        let rest = entries.drop_last();
        assert(rest[i] == entries[i]);
        assert forall|k: int| i < k < rest.len() implies (#[trigger] rest[k]).name@ != name by {
            assert(rest[k] == entries[k]);
        }
        lemma_last_named(rest, name, i);
    }
}

proof fn lemma_replace_last_named<V>(entries: Seq<Entry<V>>, i: int, entry: Entry<V>)
    requires
        last_named(entries, entry.name@, i),
    ensures
        entries_map(entries.update(i, entry)) == entries_map(entries).insert(
            entry.name@,
            entry.value,
        ),
    decreases entries.len(),
{
    let updated = entries.update(i, entry);
    let last = entries.len() - 1;
    assert(entries.last() == entries[last]);
    assert(updated.last() == updated[last]);
    if i == last {
        assert(updated.drop_last() =~= entries.drop_last());
        assert(entries_map(updated) =~= entries_map(entries).insert(entry.name@, entry.value));
    } else {
        let rest = entries.drop_last();
        assert(updated.drop_last() =~= rest.update(i, entry));
        assert(rest[i] == entries[i]);
        assert forall|k: int| i < k < rest.len() implies (#[trigger] rest[k]).name@
            != entry.name@ by {
            assert(rest[k] == entries[k]);
        }
        lemma_replace_last_named(rest, i, entry);
        assert(entries_map(updated) =~= entries_map(entries).insert(entry.name@, entry.value));
    }
}

proof fn lemma_push<V>(entries: Seq<Entry<V>>, entry: Entry<V>)
    ensures
        entries_map(entries.push(entry)) == entries_map(entries).insert(entry.name@, entry.value),
{
    let pushed = entries.push(entry);
    assert(pushed.last() == entry);
    assert(pushed.drop_last() =~= entries);
}

impl<V> View for NameTable<V> {
    type V = Map<Seq<char>, V>;

    closed spec fn view(&self) -> Map<Seq<char>, V> {
        entries_map(self.entries@)
    }
}

impl<V> NameTable<V> {
    /// The empty table.
    pub fn new() -> (table: Self)
        ensures
            table@ == Map::<Seq<char>, V>::empty(),
    {
        NameTable { entries: Vec::new() }
    }

    /// The position of the entry that counts for `name`, if there is one.
    fn position(&self, name: &str) -> (found: Option<usize>)
        ensures
            match found {
                Some(i) => last_named(self.entries@, name@, i as int),
                None => unnamed(self.entries@, name@),
            },
    {
        let wanted = name.to_owned();
        let mut i: usize = self.entries.len();
        while i > 0
            invariant
                i <= self.entries@.len(),
                wanted@ == name@,
                forall|k: int|
                    i <= k < self.entries@.len() ==> (#[trigger] self.entries@[k]).name@ != name@,
            decreases i,
        {
            i -= 1;
            if self.entries[i].name == wanted {
                return Some(i);
            }
        }
        None
    }

    /// Whether the table has a value for `name`.
    pub fn contains(&self, name: &str) -> (found: bool)
        ensures
            found == self@.contains_key(name@),
    {
        match self.position(name) {
            Some(i) => {
                proof {
                    lemma_last_named(self.entries@, name@, i as int);
                }
                true
            },
            None => {
                proof {
                    lemma_unnamed(self.entries@, name@);
                }
                false
            },
        }
    }

    /// The value for `name`, if the table has one.
    pub fn get(&self, name: &str) -> (found: Option<&V>)
        ensures
            match found {
                Some(value) => self@.contains_key(name@) && *value == self@[name@],
                None => !self@.contains_key(name@),
            },
    {
        match self.position(name) {
            Some(i) => {
                proof {
                    lemma_last_named(self.entries@, name@, i as int);
                }
                Some(&self.entries[i].value)
            },
            None => {
                proof {
                    lemma_unnamed(self.entries@, name@);
                }
                None
            },
        }
    }

    /// Sets the value for `name`, replacing the one it had.
    pub fn insert(&mut self, name: &str, value: V)
        ensures
            final(self)@ == old(self)@.insert(name@, value),
    {
        match self.position(name) {
            Some(i) => {
                let entry = Entry { name: name.to_owned(), value };
                proof {
                    lemma_replace_last_named(self.entries@, i as int, entry);
                }
                self.entries[i] = entry;
            },
            None => {
                let entry = Entry { name: name.to_owned(), value };
                proof {
                    lemma_push(self.entries@, entry);
                }
                self.entries.push(entry);
            },
        }
    }

    /// The value for `name`, made by `make` and stored where the table has
    /// none. `make` is called only in that case, and once.
    pub fn get_or_insert_with<F: FnOnce() -> V>(&mut self, name: &str, make: F) -> (value: &mut V)
        requires
            !old(self)@.contains_key(name@) ==> make.requires(()),
        ensures
            old(self)@.contains_key(name@) ==> *value == old(self)@[name@],
            !old(self)@.contains_key(name@) ==> make.ensures((), *value),
            final(self)@ == old(self)@.insert(name@, *final(value)),
    {
        let i = match self.position(name) {
            Some(i) => {
                proof {
                    lemma_last_named(self.entries@, name@, i as int);
                }
                i
            },
            None => {
                proof {
                    lemma_unnamed(self.entries@, name@);
                }
                let entry = Entry { name: name.to_owned(), value: make() };
                proof {
                    lemma_push(self.entries@, entry);
                }
                self.entries.push(entry);
                self.entries.len() - 1
            },
        };
        let ghost stored = self.entries@;
        assert(last_named(stored, name@, i as int));
        let value = &mut self.entries[i].value;
        proof {
            lemma_replace_last_named(
                stored,
                i as int,
                Entry { name: stored[i as int].name, value: *final(value) },
            );
        }
        value
    }
}

} // verus!
