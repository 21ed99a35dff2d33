//! An insertion-ordered collection of uniquely named items.
//!
//! Both containment layers — a house holding rooms and a room holding
//! devices — address their children the same way: lookup by a unique string
//! name, iteration and positional access in insertion order, and
//! replace-on-insert when a name collides.  This module carries that shape
//! once, for any item type with a mathematical view.
use vstd::prelude::*;

verus! {

/// Mathematical content of an [`Entry`]: the name and the item's view.
pub ghost struct EntryV<V> {
    pub name: Seq<char>,
    pub item: V,
}

/// One named slot of a [`Registry`].
#[derive(Debug)]
pub struct Entry<T> {
    pub name: String,
    pub item: T,
}

impl<T: View> View for Entry<T> {
    type V = EntryV<T::V>;

    open spec fn view(&self) -> EntryV<T::V> {
        EntryV { name: self.name@, item: self.item@ }
    }
}

/// Whether some entry of `s` carries `name`.
pub open spec fn has_entry<V>(s: Seq<EntryV<V>>, name: Seq<char>) -> bool {
    exists|i: int| 0 <= i < s.len() && s[i].name == name
}

/// The position of the entry of `s` carrying `name`; meaningful when
/// `has_entry(s, name)` holds and the names of `s` are unique.
pub open spec fn entry_index<V>(s: Seq<EntryV<V>>, name: Seq<char>) -> int {
    choose|i: int| 0 <= i < s.len() && s[i].name == name
}

/// Whether no two entries of `s` share a name.
pub open spec fn unique_names<V>(s: Seq<EntryV<V>>) -> bool {
    forall|i: int, j: int| 0 <= i < j < s.len() ==> s[i].name != s[j].name
}

/// With unique names, the entry carrying `name` at position `i` is the one
/// `entry_index` picks.
pub proof fn lemma_entry_index_unique<V>(s: Seq<EntryV<V>>, name: Seq<char>, i: int)
    requires
        unique_names(s),
        0 <= i < s.len(),
        s[i].name == name,
    ensures
        has_entry(s, name),
        entry_index(s, name) == i,
{
    assert(has_entry(s, name));
    let j = entry_index(s, name);
    if i < j {
        assert(s[i].name != s[j].name);
    } else if j < i {
        assert(s[j].name != s[i].name);
    }
}

/// Replacing an entry with one of the same name keeps the names unique.
pub proof fn lemma_unique_after_update<V>(s: Seq<EntryV<V>>, i: int, e: EntryV<V>)
    requires
        unique_names(s),
        0 <= i < s.len(),
        s[i].name == e.name,
    ensures
        unique_names(s.update(i, e)),
{
}

/// Appending an entry under a fresh name keeps the names unique.
pub proof fn lemma_unique_after_push<V>(s: Seq<EntryV<V>>, e: EntryV<V>)
    requires
        unique_names(s),
        !has_entry(s, e.name),
    ensures
        unique_names(s.push(e)),
{
    let s2 = s.push(e);
    assert forall|i: int, j: int| 0 <= i < j < s2.len() implies s2[i].name != s2[j].name by {
        if j == s.len() {
            assert(s2[i].name == s[i].name);
        }
    }
}

/// Removing an entry keeps the names unique.
pub proof fn lemma_unique_after_remove<V>(s: Seq<EntryV<V>>, i: int)
    requires
        unique_names(s),
        0 <= i < s.len(),
    ensures
        unique_names(s.remove(i)),
{
    let s2 = s.remove(i);
    assert forall|k: int, l: int| 0 <= k < l < s2.len() implies s2[k].name != s2[l].name by {
        let k0 = if k < i {
            k
        } else {
            k + 1
        };
        let l0 = if l < i {
            l
        } else {
            l + 1
        };
        assert(s2[k] == s[k0] && s2[l] == s[l0]);
    }
}

/// Round trip: appending an entry under a fresh name and then removing
/// that name restores the entries exactly as they were, and the removed
/// item is the one that was appended.
pub proof fn lemma_insert_remove_round_trip<V>(s: Seq<EntryV<V>>, name: Seq<char>, item: V)
    requires
        unique_names(s),
        !has_entry(s, name),
    ensures
        ({
            let s2 = s.push(EntryV { name, item });
            &&& has_entry(s2, name)
            &&& entry_index(s2, name) == s.len()
            &&& s2[entry_index(s2, name)].item == item
            &&& s2.remove(entry_index(s2, name)) == s
        }),
{
    let e = EntryV { name, item };
    let s2 = s.push(e);
    lemma_unique_after_push(s, e);
    lemma_entry_index_unique(s2, name, s.len() as int);
    assert(s2.remove(s.len() as int) =~= s);
}

/// An insertion-ordered collection of uniquely named items.  Its view is
/// the sequence of entry views, oldest first.
#[derive(Debug)]
pub struct Registry<T> {
    entries: Vec<Entry<T>>,
}

impl<T: View> View for Registry<T> {
    type V = Seq<EntryV<T::V>>;

    closed spec fn view(&self) -> Seq<EntryV<T::V>> {
        Seq::new(self.entries@.len(), |i: int| self.entries@[i]@)
    }
}

impl<T: View> Registry<T> {
    /// Creates an empty registry.
    pub fn new() -> (r: Registry<T>)
        ensures
            r@ == Seq::<EntryV<T::V>>::empty(),
    {
        let r = Registry { entries: Vec::new() };
        proof {
            assert(r@ =~= Seq::<EntryV<T::V>>::empty());
        }
        r
    }

    /// The number of entries held.
    pub fn len(&self) -> (n: usize)
        ensures
            n == self@.len(),
    {
        self.entries.len()
    }

    /// Whether no entries are held.
    pub fn is_empty(&self) -> (r: bool)
        ensures
            r == (self@.len() == 0),
    {
        self.entries.is_empty()
    }

    /// All entries, oldest first.
    pub fn entries(&self) -> (r: &Vec<Entry<T>>)
        ensures
            r@.len() == self@.len(),
            forall|i: int| 0 <= i < self@.len() ==> r@[i]@ == self@[i],
    {
        &self.entries
    }

    /// The entry at `index`, counting from the oldest.
    pub fn at(&self, index: usize) -> (r: &T)
        requires
            index < self@.len(),
        ensures
            r@ == self@[index as int].item,
    {
        &self.entries[index].item
    }

    /// The position of the entry carrying `name`, or None when no entry
    /// does.
    fn index_of(&self, name: &String) -> (r: Option<usize>)
        ensures
            match r {
                Some(i) => i < self@.len() && self@[i as int].name == name@,
                None => !has_entry(self@, name@),
            },
    {
        let n = self.entries.len();
        let mut i: usize = 0;
        while i < n
            invariant
                n == self@.len(),
                i <= n,
                self@.len() == self.entries@.len(),
                forall|k: int| 0 <= k < i ==> self@[k].name != name@,
            decreases n - i,
        {
            if self.entries[i].name == *name {
                return Some(i);
            }
            i = i + 1;
        }
        None
    }

    /// A shared borrow of the item registered under `name`, or None when
    /// no entry carries that name.
    pub fn get(&self, name: &String) -> (r: Option<&T>)
        requires
            unique_names(self@),
        ensures
            match r {
                Some(t) => has_entry(self@, name@) && t@ == self@[entry_index(self@, name@)].item,
                None => !has_entry(self@, name@),
            },
    {
        match self.index_of(name) {
            Some(i) => {
                proof {
                    lemma_entry_index_unique(self@, name@, i as int);
                }
                Some(&self.entries[i].item)
            }
            None => None,
        }
    }

    /// An exclusive borrow of the item registered under `name`, or None
    /// when no entry carries that name.  The entry's name is untouched;
    /// whatever the caller does through the borrow lands at the same
    /// position.
    pub fn get_mut(&mut self, name: &String) -> (r: Option<&mut T>)
        requires
            unique_names(old(self)@),
        ensures
            match r {
                Some(t) => has_entry(old(self)@, name@) && (*t)@ == old(self)@[entry_index(
                    old(self)@,
                    name@,
                )].item && final(self)@ == old(self)@.update(
                    entry_index(old(self)@, name@),
                    (EntryV { name: name@, item: (*final(t))@ }),
                ),
                None => !has_entry(old(self)@, name@) && final(self)@ == old(self)@,
            },
    {
        match self.index_of(name) {
            Some(i) => {
                proof {
                    lemma_entry_index_unique(self@, name@, i as int);
                }
                let entry = &mut self.entries[i];
                Some(&mut entry.item)
            }
            None => {
                proof {
                    assert(final(self)@ =~= old(self)@);
                }
                None
            }
        }
    }

    /// Registers `item` under `name`.  A colliding name has its entry
    /// replaced in place, and the prior item is handed back; a fresh name
    /// is appended at the end.
    pub fn insert(&mut self, name: String, item: T) -> (prior: Option<T>)
        requires
            unique_names(old(self)@),
        ensures
            unique_names(final(self)@),
            has_entry(old(self)@, name@) ==> ({
                let i = entry_index(old(self)@, name@);
                &&& prior matches Some(p) && p@ == old(self)@[i].item
                &&& final(self)@ == old(self)@.update(i, (EntryV { name: name@, item: item@ }))
            }),
            !has_entry(old(self)@, name@) ==> (prior is None && final(self)@ == old(self)@.push(
                (EntryV { name: name@, item: item@ }),
            )),
    {
        match self.index_of(&name) {
            Some(i) => {
                proof {
                    lemma_entry_index_unique(self@, name@, i as int);
                    lemma_unique_after_update(
                        self@,
                        i as int,
                        EntryV { name: name@, item: item@ },
                    );
                }
                let prior_entry = self.entries.remove(i);
                self.entries.insert(i, Entry { name, item });
                proof {
                    assert(self@ =~= old(self)@.update(
                        i as int,
                        EntryV { name: name@, item: item@ },
                    ));
                }
                Some(prior_entry.item)
            }
            None => {
                proof {
                    lemma_unique_after_push(self@, EntryV { name: name@, item: item@ });
                }
                self.entries.push(Entry { name, item });
                proof {
                    assert(self@ =~= old(self)@.push(EntryV { name: name@, item: item@ }));
                }
                None
            }
        }
    }

    /// Removes the entry carrying `name` and hands its item back, or
    /// leaves the registry untouched and returns None when no entry
    /// carries that name.  Later entries shift down one position.
    pub fn remove(&mut self, name: &String) -> (r: Option<T>)
        requires
            unique_names(old(self)@),
        ensures
            unique_names(final(self)@),
            has_entry(old(self)@, name@) ==> (r matches Some(p) && p@ == old(self)@[entry_index(
                old(self)@,
                name@,
            )].item && final(self)@ == old(self)@.remove(entry_index(old(self)@, name@))),
            !has_entry(old(self)@, name@) ==> r is None && final(self)@ == old(self)@,
    {
        match self.index_of(name) {
            Some(i) => {
                proof {
                    lemma_entry_index_unique(self@, name@, i as int);
                    lemma_unique_after_remove(self@, i as int);
                }
                let entry = self.entries.remove(i);
                proof {
                    assert(self@ =~= old(self)@.remove(i as int));
                }
                Some(entry.item)
            }
            None => None,
        }
    }
}

} // verus!
