//! A table of values keyed by name, kept in the order in which the names
//! were first seen.

use vstd::prelude::*;

verus! {

/// Where `name` stands among `names`: the last index that holds it.
pub open spec fn position(names: Seq<Seq<char>>, name: Seq<char>) -> Option<int>
    decreases names.len(),
{
    if names.len() == 0 {
        None
    } else if names.last() == name {
        Some(names.len() - 1)
    } else {
        position(names.drop_last(), name)
    }
}

/// A found position is in range and holds the name that was looked for;
/// nothing behind it does.
pub proof fn lemma_position_found(names: Seq<Seq<char>>, name: Seq<char>)
    ensures
        match position(names, name) {
            Some(i) => {
                &&& 0 <= i < names.len()
                &&& names[i] == name
                &&& forall|j: int| i < j < names.len() ==> names[j] != name
            },
            None => forall|j: int| 0 <= j < names.len() ==> names[j] != name,
        },
    decreases names.len(),
{
    if names.len() > 0 && names.last() != name {
        let front = names.drop_last();
        lemma_position_found(front, name);
        assert forall|j: int| 0 <= j < names.len() - 1 implies names[j] == front[j] by {}
    }
}

/// An index that holds `name`, with no later index holding it, is its
/// position.
pub proof fn lemma_position_is(names: Seq<Seq<char>>, name: Seq<char>, i: int)
    requires
        0 <= i < names.len(),
        names[i] == name,
        forall|j: int| i < j < names.len() ==> names[j] != name,
    ensures
        position(names, name) == Some(i),
    decreases names.len(),
{
    if i < names.len() - 1 {
        lemma_position_is(names.drop_last(), name, i);
    }
}

/// A name that no index holds has no position.
pub proof fn lemma_position_none(names: Seq<Seq<char>>, name: Seq<char>)
    requires
        forall|j: int| 0 <= j < names.len() ==> names[j] != name,
    ensures
        position(names, name) is None,
    decreases names.len(),
{
    if names.len() > 0 {
        lemma_position_none(names.drop_last(), name);
    }
}

/// A name with the value held for it.
struct Entry<T> {
    name: String,
    value: T,
}

/// Values by name. A name is held once; its value can be replaced.
pub struct NameTable<T> {
    entries: Vec<Entry<T>>,
}

impl<T> View for NameTable<T> {
    type V = Map<Seq<char>, T>;

    closed spec fn view(&self) -> Map<Seq<char>, T> {
        Map::new(
            |name: Seq<char>| position(self.names(), name) is Some,
            |name: Seq<char>| self.entries@[position(self.names(), name).unwrap()].value,
        )
    }
}

impl<T> NameTable<T> {
    /// The names of the slots, in their order.
    pub closed spec fn names(&self) -> Seq<Seq<char>> {
        self.entries@.map_values(|entry: Entry<T>| entry.name@)
    }

    /// The value in slot `i`.
    pub closed spec fn value_at(&self, i: int) -> T {
        self.entries@[i].value
    }

    /// The slot in which `name` is held, if it is held.
    pub open spec fn slot_of(&self, name: Seq<char>) -> Option<int> {
        position(self.names(), name)
    }

    /// Whether slot `i` is the one in which its name is looked up.
    pub open spec fn is_slot(&self, i: int) -> bool {
        0 <= i < self.names().len() && self.slot_of(self.names()[i]) == Some(i)
    }

    /// An empty table.
    pub fn new() -> (table: Self)
        ensures
            table@ == Map::<Seq<char>, T>::empty(),
            table.names() == Seq::<Seq<char>>::empty(),
    {
        let table = NameTable { entries: Vec::new() };
        assert(table.names() =~= Seq::<Seq<char>>::empty());
        assert(table@ =~= Map::<Seq<char>, T>::empty());
        table
    }

    /// The slot that holds `name`.
    pub fn find(&self, name: &String) -> (slot: Option<usize>)
        ensures
            match slot {
                Some(i) => {
                    &&& self.slot_of(name@) == Some(i as int)
                    &&& self.is_slot(i as int)
                    &&& self.names()[i as int] == name@
                    &&& self@.contains_key(name@)
                    &&& self@[name@] == self.value_at(i as int)
                },
                None => self.slot_of(name@) is None && !self@.contains_key(name@),
            },
    {
        let mut i: usize = self.entries.len();
        while i > 0
            invariant
                i <= self.entries@.len(),
                self.names().len() == self.entries@.len(),
                forall|j: int| i <= j < self.entries@.len() ==> self.names()[j] != name@,
            decreases i,
        {
            i = i - 1;
            if self.entries[i].name == *name {
                proof {
                    lemma_position_is(self.names(), name@, i as int);
                }
                return Some(i);
            }
        }
        proof {
            lemma_position_none(self.names(), name@);
        }
        None
    }

    /// The value held for `name`.
    pub fn get(&self, name: &String) -> (value: Option<&T>)
        ensures
            match value {
                Some(v) => self@.contains_key(name@) && *v == self@[name@],
                None => !self@.contains_key(name@),
            },
    {
        match self.find(name) {
            Some(i) => Some(&self.entries[i].value),
            None => None,
        }
    }

    /// Holds `value` for `name` from now on, whether or not the name was held
    /// before.
    pub fn insert(&mut self, name: &String, value: T)
        ensures
            final(self)@ == old(self)@.insert(name@, value),
    {
        match self.find(name) {
            Some(i) => {
                let _ = self.replace(i, value);
            },
            None => {
                let ghost before = *self;
                self.entries.push(Entry { name: name.clone(), value });
                proof {
                    assert(self.names().drop_last() =~= before.names());
                    assert(self.names().last() == name@);
                    assert forall|other: Seq<char>|
                        self@.contains_key(other) == before@.insert(
                            name@,
                            value,
                        ).contains_key(other) && (self@.contains_key(other) ==> self@[other]
                            == before@.insert(name@, value)[other]) by {
                        lemma_position_found(before.names(), other);
                    }
                    assert(self@ =~= before@.insert(name@, value));
                }
            },
        }
    }

    /// Replaces the value in slot `i`, which keeps its name, and hands back
    /// the value that was there.
    pub fn replace(&mut self, i: usize, value: T) -> (previous: T)
        requires
            old(self).is_slot(i as int),
        ensures
            previous == old(self).value_at(i as int),
            final(self).names() == old(self).names(),
            final(self)@ == old(self)@.insert(old(self).names()[i as int], value),
    {
        let ghost before = *self;
        let mut value = value;
        core::mem::swap(&mut self.entries[i].value, &mut value);
        proof {
            assert(self.names() =~= before.names());
            let name = before.names()[i as int];
            let given = self.entries@[i as int].value;
            assert forall|other: Seq<char>|
                self@.contains_key(other) == before@.insert(name, given).contains_key(other) && (
                self@.contains_key(other) ==> self@[other] == before@.insert(name, given)[other]) by {
                lemma_position_found(before.names(), other);
            }
            assert(self@ =~= before@.insert(name, given));
        }
        value
    }
}

} // verus!
