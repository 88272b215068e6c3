//! Values by name.

use vstd::prelude::*;

use crate::text::{same, texts};

verus! {

/// No two entries have the same name.
spec fn distinct<V>(entries: Seq<(String, V)>) -> bool {
    forall|i: int, j: int|
        0 <= i < j < entries.len() ==> (#[trigger] entries[i]).0@ != (#[trigger] entries[j]).0@
}

/// Whether there is an entry of a name.
spec fn named<V>(entries: Seq<(String, V)>, name: Seq<char>) -> bool {
    exists|i: int| 0 <= i < entries.len() && (#[trigger] entries[i]).0@ == name
}

/// Where the entry of a name stands.
spec fn slot<V>(entries: Seq<(String, V)>, name: Seq<char>) -> int {
    choose|i: int| 0 <= i < entries.len() && (#[trigger] entries[i]).0@ == name
}

/// The entries by their names.
spec fn by_name<V>(entries: Seq<(String, V)>) -> Map<Seq<char>, V> {
    Map::new(
        |name: Seq<char>| named(entries, name),
        |name: Seq<char>| entries[slot(entries, name)].1,
    )
}

/// Values by name, each name once.
#[derive(Debug)]
pub struct Table<V> {
    entries: Vec<(String, V)>,
}

impl<V> View for Table<V> {
    type V = Map<Seq<char>, V>;

    closed spec fn view(&self) -> Map<Seq<char>, V> {
        by_name(self.entries@)
    }
}

proof fn lemma_slot<V>(entries: Seq<(String, V)>, i: int)
    requires
        distinct(entries),
        0 <= i < entries.len(),
    ensures
        named(entries, entries[i].0@),
        slot(entries, entries[i].0@) == i,
{
    let at = slot(entries, entries[i].0@);
    assert(0 <= at < entries.len() && entries[at].0@ == entries[i].0@);
}

proof fn lemma_pushed<V>(entries: Seq<(String, V)>, next: (String, V))
    requires
        distinct(entries),
        !named(entries, next.0@),
    ensures
        distinct(entries.push(next)),
        by_name(entries.push(next)) == by_name(entries).insert(next.0@, next.1),
{
    let longer = entries.push(next);
    assert(distinct(longer));
    lemma_slot(longer, entries.len() as int);
    assert forall|name: Seq<char>|
        #![trigger by_name(longer)[name]]
        named(entries, name) implies by_name(longer)[name] == by_name(entries)[name] by {
        let i = slot(entries, name);
        assert(longer[i] == entries[i]);
        lemma_slot(longer, i);
    }
    assert forall|name: Seq<char>| #[trigger]
        named(longer, name) == (name == next.0@ || named(entries, name)) by {
        if named(longer, name) {
            let i = slot(longer, name);
            if i < entries.len() {
                assert(entries[i] == longer[i]);
            }
        }
        if named(entries, name) {
            let i = slot(entries, name);
            assert(longer[i] == entries[i]);
        }
    }
    assert(by_name(longer) =~= by_name(entries).insert(next.0@, next.1));
}

proof fn lemma_updated<V>(entries: Seq<(String, V)>, i: int, next: (String, V))
    requires
        distinct(entries),
        0 <= i < entries.len(),
        entries[i].0@ == next.0@,
    ensures
        distinct(entries.update(i, next)),
        by_name(entries.update(i, next)) == by_name(entries).insert(next.0@, next.1),
{
    let after = entries.update(i, next);
    assert forall|a: int, b: int| 0 <= a < b < after.len() implies (#[trigger] after[a]).0@ != (
    #[trigger] after[b]).0@ by {
        assert(entries[a].0@ == after[a].0@);
        assert(entries[b].0@ == after[b].0@);
    }
    lemma_slot(after, i);
    lemma_slot(entries, i);
    assert forall|name: Seq<char>| named(after, name) == named(entries, name) by {
        if named(entries, name) {
            let j = slot(entries, name);
            assert(after[j].0@ == name);
        }
        if named(after, name) {
            let j = slot(after, name);
            assert(entries[j].0@ == name);
        }
    }
    assert forall|name: Seq<char>|
        #![trigger by_name(after)[name]]
        named(entries, name) && name != next.0@ implies by_name(after)[name] == by_name(
        entries,
    )[name] by {
        let j = slot(entries, name);
        assert(after[j] == entries[j]);
        lemma_slot(after, j);
    }
    assert(by_name(after) =~= by_name(entries).insert(next.0@, next.1));
}

proof fn lemma_removed<V>(entries: Seq<(String, V)>, i: int)
    requires
        distinct(entries),
        0 <= i < entries.len(),
    ensures
        distinct(entries.remove(i)),
        by_name(entries.remove(i)) == by_name(entries).remove(entries[i].0@),
{
    let after = entries.remove(i);
    let gone = entries[i].0@;
    assert forall|a: int, b: int| 0 <= a < b < after.len() implies (#[trigger] after[a]).0@ != (
    #[trigger] after[b]).0@ by {
        let a0 = if a < i {
            a
        } else {
            a + 1
        };
        let b0 = if b < i {
            b
        } else {
            b + 1
        };
        assert(after[a] == entries[a0]);
        assert(after[b] == entries[b0]);
    }
    assert forall|name: Seq<char>| #[trigger]
        named(after, name) == (named(entries, name) && name != gone) by {
        if named(after, name) {
            let j = slot(after, name);
            let j0 = if j < i {
                j
            } else {
                j + 1
            };
            assert(after[j] == entries[j0]);
        }
        if named(entries, name) && name != gone {
            let j = slot(entries, name);
            let j1 = if j < i {
                j
            } else {
                j - 1
            };
            assert(after[j1] == entries[j]);
        }
    }
    assert forall|name: Seq<char>|
        #![trigger by_name(after)[name]]
        named(entries, name) && name != gone implies by_name(after)[name] == by_name(
        entries,
    )[name] by {
        let j = slot(entries, name);
        let j1 = if j < i {
            j
        } else {
            j - 1
        };
        assert(after[j1] == entries[j]);
        lemma_slot(after, j1);
    }
    assert(by_name(after) =~= by_name(entries).remove(gone));
}

/// Where the entry of a name stands, where there is one.
fn find<V>(entries: &Vec<(String, V)>, name: &str) -> (r: Option<usize>)
    ensures
        match r {
            Some(i) => i < entries@.len() && entries@[i as int].0@ == name@,
            None => !named(entries@, name@),
        },
{
    for i in 0..entries.len()
        invariant
            forall|j: int| 0 <= j < i ==> (#[trigger] entries@[j]).0@ != name@,
    {
        if same(entries[i].0.as_str(), name) {
            return Some(i);
        }
    }
    None
}

impl<V> Table<V> {
    #[verifier::type_invariant]
    spec fn each_name_once(self) -> bool {
        distinct(self.entries@)
    }

    /// No values.
    pub fn new() -> (r: Table<V>)
        ensures
            r@ == Map::<Seq<char>, V>::empty(),
    {
        let r = Table { entries: Vec::new() };
        assert(r@ =~= Map::<Seq<char>, V>::empty());
        r
    }

    /// Whether there are no values.
    pub fn is_empty(&self) -> (r: bool)
        ensures
            r == (self@.dom() == Set::<Seq<char>>::empty()),
    {
        proof {
            if self.entries@.len() == 0 {
                assert(self@.dom() =~= Set::<Seq<char>>::empty());
            } else {
                assert(named(self.entries@, self.entries@[0].0@));
                assert(self@.dom().contains(self.entries@[0].0@));
            }
        }
        self.entries.len() == 0
    }

    /// The value of a name.
    pub fn get(&self, name: &str) -> (r: Option<&V>)
        ensures
            match r {
                Some(value) => self@.dom().contains(name@) && *value == self@[name@],
                None => !self@.dom().contains(name@),
            },
    {
        proof {
            use_type_invariant(self);
        }
        match find(&self.entries, name) {
            Some(i) => {
                proof {
                    lemma_slot(self.entries@, i as int);
                }
                Some(&self.entries[i].1)
            },
            None => None,
        }
    }

    /// Gives a name a value, in place of the one that it had.
    pub fn insert(&mut self, name: String, value: V)
        ensures
            final(self)@ == old(self)@.insert(name@, value),
    {
        proof {
            use_type_invariant(&*self);
        }
        let mut entries: Vec<(String, V)> = Vec::new();
        std::mem::swap(&mut entries, &mut self.entries);
        match find(&entries, name.as_str()) {
            Some(i) => {
                proof {
                    lemma_updated(entries@, i as int, (name, value));
                }
                entries.set(i, (name, value));
            },
            None => {
                proof {
                    lemma_pushed(entries@, (name, value));
                }
                entries.push((name, value));
            },
        }
        self.entries = entries;
    }

    /// Takes the value of a name out.
    pub fn remove(&mut self, name: &str) -> (r: Option<V>)
        ensures
            final(self)@ == old(self)@.remove(name@),
            match r {
                Some(value) => old(self)@.dom().contains(name@) && value == old(self)@[name@],
                None => !old(self)@.dom().contains(name@),
            },
    {
        proof {
            use_type_invariant(&*self);
        }
        let mut entries: Vec<(String, V)> = Vec::new();
        std::mem::swap(&mut entries, &mut self.entries);
        match find(&entries, name) {
            Some(i) => {
                proof {
                    lemma_slot(entries@, i as int);
                    lemma_removed(entries@, i as int);
                }
                let (_, value) = entries.remove(i);
                self.entries = entries;
                Some(value)
            },
            None => {
                self.entries = entries;
                assert(old(self)@.remove(name@) =~= old(self)@);
                None
            },
        }
    }

    /// The names.
    pub fn names(&self) -> (r: Vec<String>)
        ensures
            texts(r@).to_set() == self@.dom(),
            texts(r@).no_duplicates(),
    {
        proof {
            use_type_invariant(self);
        }
        let mut names: Vec<String> = Vec::new();
        for i in 0..self.entries.len()
            invariant
                names@.len() == i,
                distinct(self.entries@),
                forall|j: int| 0 <= j < i ==> (#[trigger] names@[j])@ == self.entries@[j].0@,
        {
            names.push(self.entries[i].0.clone());
        }
        let ghost all = texts(names@);
        assert forall|name: Seq<char>| all.contains(name) <==> named(self.entries@, name) by {
            if all.contains(name) {
                let i = choose|i: int| 0 <= i < all.len() && all[i] == name;
                assert(names@[i]@ == self.entries@[i].0@);
            }
            if named(self.entries@, name) {
                let i = slot(self.entries@, name);
                assert(names@[i]@ == self.entries@[i].0@);
                assert(all[i] == name);
            }
        }
        assert(all.to_set() =~= self@.dom());
        assert forall|i: int, j: int| 0 <= i < all.len() && 0 <= j < all.len() && i != j implies all[i]
            != all[j] by {
            assert(names@[i]@ == self.entries@[i].0@ && names@[j]@ == self.entries@[j].0@);
        }
        names
    }
}

} // verus!
