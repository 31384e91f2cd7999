use vstd::prelude::*;
use crate::status::{Status, StatusView};

verus! {

/// No two entries of `entries` report on the same check.
pub open spec fn names_unique(entries: Seq<StatusView>) -> bool {
    forall|i: int, j: int|
        0 <= i < entries.len() && 0 <= j < entries.len() && i != j
            ==> #[trigger] entries[i].name != #[trigger] entries[j].name
}

/// Some entry of `entries` reports on the check called `name`.
pub open spec fn has_name(entries: Seq<StatusView>, name: Seq<char>) -> bool {
    exists|i: int| 0 <= i < entries.len() && #[trigger] entries[i].name == name
}

/// The entries read as a map from check name to the entry on that check.
pub open spec fn book_map(entries: Seq<StatusView>) -> Map<Seq<char>, StatusView> {
    Map::new(
        |name: Seq<char>| has_name(entries, name),
        |name: Seq<char>| entries[choose|i: int| 0 <= i < entries.len() && entries[i].name == name],
    )
}

/// Every entry of the map is filed under the name of the check it reports on.
pub open spec fn well_keyed(book: Map<Seq<char>, StatusView>) -> bool {
    forall|name: Seq<char>| #[trigger] book.contains_key(name) ==> book[name].name == name
}

pub proof fn lemma_book_map_at(entries: Seq<StatusView>, i: int)
    requires
        names_unique(entries),
        0 <= i < entries.len(),
    ensures
        book_map(entries).contains_key(entries[i].name),
        book_map(entries)[entries[i].name] == entries[i],
{
    let name = entries[i].name;
    assert(has_name(entries, name));
    let j = choose|j: int| 0 <= j < entries.len() && entries[j].name == name;
    assert(entries[j].name == entries[i].name);
}

pub proof fn lemma_book_map_well_keyed(entries: Seq<StatusView>)
    ensures
        well_keyed(book_map(entries)),
{
    assert forall|name: Seq<char>| #[trigger] book_map(entries).contains_key(name) implies book_map(
        entries,
    )[name].name == name by {
        let j = choose|j: int| 0 <= j < entries.len() && entries[j].name == name;
    }
}

pub proof fn lemma_book_map_push(entries: Seq<StatusView>, entry: StatusView)
    requires
        names_unique(entries),
        !has_name(entries, entry.name),
    ensures
        names_unique(entries.push(entry)),
        book_map(entries.push(entry)) =~= book_map(entries).insert(entry.name, entry),
{
    let pushed = entries.push(entry);
    assert forall|i: int, j: int|
        0 <= i < pushed.len() && 0 <= j < pushed.len() && i != j
            implies #[trigger] pushed[i].name != #[trigger] pushed[j].name by {
        if i < entries.len() && j < entries.len() {
            assert(entries[i] == pushed[i] && entries[j] == pushed[j]);
        } else if i < entries.len() {
            assert(entries[i].name == pushed[i].name);
        } else {
            assert(entries[j].name == pushed[j].name);
        }
    }
    let old_map = book_map(entries);
    let new_map = book_map(pushed);
    assert forall|name: Seq<char>| new_map.contains_key(name) <==> old_map.insert(
        entry.name,
        entry,
    ).contains_key(name) by {
        if has_name(entries, name) {
            let i = choose|i: int| 0 <= i < entries.len() && entries[i].name == name;
            assert(pushed[i] == entries[i]);
        }
        if has_name(pushed, name) && name != entry.name {
            let i = choose|i: int| 0 <= i < pushed.len() && pushed[i].name == name;
            assert(entries[i] == pushed[i]);
        }
        if name == entry.name {
            assert(pushed[entries.len() as int] == entry);
        }
    }
    assert forall|name: Seq<char>| #[trigger] new_map.contains_key(name) implies new_map[name]
        == old_map.insert(entry.name, entry)[name] by {
        let i = choose|i: int| 0 <= i < pushed.len() && pushed[i].name == name;
        lemma_book_map_at(pushed, i);
        if i < entries.len() {
            assert(entries[i] == pushed[i]);
            lemma_book_map_at(entries, i);
        }
    }
}

pub proof fn lemma_book_map_update(entries: Seq<StatusView>, i: int, entry: StatusView)
    requires
        names_unique(entries),
        0 <= i < entries.len(),
        entries[i].name == entry.name,
    ensures
        names_unique(entries.update(i, entry)),
        book_map(entries.update(i, entry)) =~= book_map(entries).insert(entry.name, entry),
{
    let updated = entries.update(i, entry);
    assert forall|a: int, b: int|
        0 <= a < updated.len() && 0 <= b < updated.len() && a != b
            implies #[trigger] updated[a].name != #[trigger] updated[b].name by {
        assert(updated[a].name == entries[a].name);
        assert(updated[b].name == entries[b].name);
    }
    let old_map = book_map(entries);
    let new_map = book_map(updated);
    assert forall|name: Seq<char>| new_map.contains_key(name) <==> old_map.insert(
        entry.name,
        entry,
    ).contains_key(name) by {
        if has_name(entries, name) {
            let j = choose|j: int| 0 <= j < entries.len() && entries[j].name == name;
            assert(updated[j].name == entries[j].name);
        }
        if has_name(updated, name) {
            let j = choose|j: int| 0 <= j < updated.len() && updated[j].name == name;
            assert(updated[j].name == entries[j].name);
        }
        if name == entry.name {
            assert(updated[i] == entry);
        }
    }
    assert forall|name: Seq<char>| #[trigger] new_map.contains_key(name) implies new_map[name]
        == old_map.insert(entry.name, entry)[name] by {
        let j = choose|j: int| 0 <= j < updated.len() && updated[j].name == name;
        lemma_book_map_at(updated, j);
        if j != i {
            assert(entries[j] == updated[j]);
            lemma_book_map_at(entries, j);
        }
    }
}

/// The last known status of each check, one entry per check name.
pub struct StatusBook {
    entries: Vec<Status>,
}

impl StatusBook {
    /// The entries as mathematical values, in storage order.
    pub closed spec fn entry_views(&self) -> Seq<StatusView> {
        self.entries@.map_values(|s: Status| s@)
    }

    #[verifier::type_invariant]
    spec fn one_entry_per_check(&self) -> bool {
        names_unique(self.entry_views())
    }

    /// The book as a map from check name to the last status reported on it.
    pub closed spec fn known(&self) -> Map<Seq<char>, StatusView> {
        book_map(self.entry_views())
    }

    /// Every entry is filed under the name of the check it reports on.
    pub proof fn lemma_well_keyed(&self)
        ensures
            well_keyed(self.known()),
    {
        lemma_book_map_well_keyed(self.entry_views());
    }

    /// An empty book.
    pub fn new() -> (book: Self)
        ensures
            book.known() == Map::<Seq<char>, StatusView>::empty(),
    {
        let book = StatusBook { entries: Vec::new() };
        assert(book.known() =~= Map::<Seq<char>, StatusView>::empty());
        book
    }

    /// The position of the entry on the check called `name`, if there is one.
    fn position(&self, name: &String) -> (found: Option<usize>)
        ensures
            found matches Some(i) ==> i < self.entries.len() && self.entries@[i as int].name@
                == name@,
            found is None ==> !has_name(self.entry_views(), name@),
    {
        let mut i: usize = 0;
        while i < self.entries.len()
            invariant
                i <= self.entries.len(),
                forall|j: int| 0 <= j < i ==> self.entries@[j].name@ != name@,
            decreases self.entries.len() - i,
        {
            if self.entries[i].name == *name {
                return Some(i);
            }
            i = i + 1;
        }
        assert forall|j: int| 0 <= j < self.entry_views().len() implies #[trigger] self.entry_views()[j].name
            != name@ by {
            assert(self.entry_views()[j] == self.entries@[j]@);
        }
        None
    }

    /// Files `status` as the last known status of its check and hands back
    /// the one it replaces, if any.
    pub fn record(&mut self, status: Status) -> (previous: Option<Status>)
        ensures
            final(self).known() == old(self).known().insert(status@.name, status@),
            previous is None <==> !old(self).known().contains_key(status@.name),
            previous matches Some(p) ==> p@ == old(self).known()[status@.name],
    {
        proof {
            use_type_invariant(&*self);
        }
        let ghost before = self.entry_views();
        match self.position(&status.name) {
            Some(i) => {
                proof {
                    lemma_book_map_at(before, i as int);
                    lemma_book_map_update(before, i as int, status@);
                }
                let ghost updated = before.update(i as int, status@);
                let mut entries: Vec<Status> = Vec::new();
                std::mem::swap(&mut entries, &mut self.entries);
                let previous = entries.remove(i);
                entries.insert(i, status);
                assert(entries@.map_values(|s: Status| s@) =~= updated);
                self.entries = entries;
                Some(previous)
            },
            None => {
                proof {
                    lemma_book_map_push(before, status@);
                }
                let ghost pushed = before.push(status@);
                let mut entries: Vec<Status> = Vec::new();
                std::mem::swap(&mut entries, &mut self.entries);
                entries.push(status);
                assert(entries@.map_values(|s: Status| s@) =~= pushed);
                self.entries = entries;
                None
            },
        }
    }
}

} // verus!
