//! Values that are kept under a name: one value per name.
use crate::utf8_text::same_text;
use vstd::prelude::*;
use vstd::string::*;

verus! {

/// Values by name. A later value takes the place of an earlier one of the same name.
pub struct Registry<T> {
    entries: Vec<(String, T)>,
}

impl<T> View for Registry<T> {
    type V = Map<Seq<char>, T>;

    closed spec fn view(&self) -> Map<Seq<char>, T> {
        contents(self.entries@)
    }
}

/// The values under the names of a list in which no name occurs twice.
closed spec fn contents<T>(entries: Seq<(String, T)>) -> Map<Seq<char>, T>
    decreases entries.len(),
{
    if entries.len() == 0 {
        Map::empty()
    } else {
        contents(entries.drop_last()).insert(entries.last().0@, entries.last().1)
    }
}

closed spec fn distinct<T>(entries: Seq<(String, T)>) -> bool {
    forall|i: int, j: int| 0 <= i < j < entries.len() ==> entries[i].0@ != entries[j].0@
}

impl<T> Registry<T> {
    #[verifier::type_invariant]
    closed spec fn is_valid(self) -> bool {
        distinct(self.entries@)
    }

    /// A registry with nothing in it.
    pub fn new() -> (res: Registry<T>)
        ensures
            res@ == Map::<Seq<char>, T>::empty(),
    {
        Registry { entries: Vec::new() }
    }

    /// Where the entry with this name is.
    fn position(&self, name: &str) -> (res: Option<usize>)
        ensures
            match res {
                Some(i) => i < self.entries@.len() && self.entries@[i as int].0@ == name@,
                None => forall|i: int|
                    0 <= i < self.entries@.len() ==> #[trigger] self.entries@[i].0@ != name@,
            },
    {
        let mut i: usize = 0;
        while i < self.entries.len()
            invariant
                i <= self.entries@.len(),
                forall|j: int| 0 <= j < i ==> #[trigger] self.entries@[j].0@ != name@,
            decreases self.entries@.len() - i,
        {
            if same_text(self.entries[i].0.as_str(), name) {
                return Some(i);
            }
            i += 1;
        }
        None
    }

    /// Puts a value under a name.
    pub fn insert(&mut self, name: String, value: T)
        ensures
            final(self)@ == old(self)@.insert(name@, value),
    {
        proof {
            use_type_invariant(&*self);
        }
        match self.position(name.as_str()) {
            Some(i) => {
                let ghost before = self.entries@;
                let mut entries: Vec<(String, T)> = Vec::new();
                std::mem::swap(&mut entries, &mut self.entries);
                proof {
                    lemma_set(before, i as int, (name, value));
                }
                entries.set(i, (name, value));
                self.entries = entries;
            },
            None => {
                let ghost before = self.entries@;
                let mut entries: Vec<(String, T)> = Vec::new();
                std::mem::swap(&mut entries, &mut self.entries);
                entries.push((name, value));
                assert(entries@.drop_last() =~= before);
                self.entries = entries;
            },
        }
    }

    /// Whether there is a value under a name.
    pub fn contains(&self, name: &str) -> (res: bool)
        ensures
            res == self@.contains_key(name@),
    {
        proof {
            lemma_contents(self.entries@);
        }
        self.position(name).is_some()
    }

    /// The value under a name.
    pub fn get(&self, name: &str) -> (res: Option<&T>)
        ensures
            match res {
                Some(value) => self@.contains_key(name@) && *value == self@[name@],
                None => !self@.contains_key(name@),
            },
    {
        proof {
            use_type_invariant(self);
            lemma_contents(self.entries@);
        }
        match self.position(name) {
            Some(i) => {
                proof {
                    lemma_found(self.entries@, i as int);
                }
                Some(&self.entries[i].1)
            },
            None => None,
        }
    }
}

/// The names of the contents are the names of the list.
proof fn lemma_contents<T>(entries: Seq<(String, T)>)
    ensures
        forall|i: int|
            0 <= i < entries.len() ==> contents(entries).contains_key(#[trigger] entries[i].0@),
        forall|name: Seq<char>| #[trigger]
            contents(entries).contains_key(name) ==> exists|i: int|
                0 <= i < entries.len() && #[trigger] entries[i].0@ == name,
    decreases entries.len(),
{
    if entries.len() > 0 {
        let fewer = entries.drop_last();
        lemma_contents(fewer);
        assert forall|i: int| 0 <= i < entries.len() implies contents(entries).contains_key(
            #[trigger] entries[i].0@,
        ) by {
            if i < fewer.len() {
                assert(fewer[i] == entries[i]);
            }
        }
        assert forall|name: Seq<char>| #[trigger] contents(entries).contains_key(name) implies exists|
            i: int,
        |
            0 <= i < entries.len() && #[trigger] entries[i].0@ == name by {
            if name == entries.last().0@ {
                assert(entries[entries.len() - 1].0@ == name);
            } else {
                assert(contents(fewer).contains_key(name));
                let i = choose|i: int| 0 <= i < fewer.len() && #[trigger] fewer[i].0@ == name;
                assert(entries[i].0@ == name);
            }
        }
    }
}

/// An entry of the list is in the contents.
proof fn lemma_found<T>(entries: Seq<(String, T)>, i: int)
    requires
        distinct(entries),
        0 <= i < entries.len(),
    ensures
        contents(entries).contains_key(entries[i].0@),
        contents(entries)[entries[i].0@] == entries[i].1,
    decreases entries.len(),
{
    if i < entries.len() - 1 {
        let fewer = entries.drop_last();
        assert(fewer[i] == entries[i]);
        lemma_found(fewer, i);
        assert(entries[i].0@ != entries[entries.len() - 1].0@);
    }
}

/// An entry that takes the place of one with the same name.
proof fn lemma_set<T>(entries: Seq<(String, T)>, i: int, entry: (String, T))
    requires
        distinct(entries),
        0 <= i < entries.len(),
        entries[i].0@ == entry.0@,
    ensures
        distinct(entries.update(i, entry)),
        contents(entries.update(i, entry)) == contents(entries).insert(entry.0@, entry.1),
    decreases entries.len(),
{
    let fewer = entries.drop_last();
    if i < entries.len() - 1 {
        assert(fewer[i] == entries[i]);
        lemma_set(fewer, i, entry);
        assert(entries.update(i, entry).drop_last() =~= fewer.update(i, entry));
        assert(entries[i].0@ != entries[entries.len() - 1].0@);
        assert(contents(entries.update(i, entry)) =~= contents(entries).insert(entry.0@, entry.1));
    } else {
        assert(entries.update(i, entry).drop_last() =~= fewer);
        assert(contents(entries.update(i, entry)) =~= contents(entries).insert(entry.0@, entry.1));
    }
}

/// Under the name of a value that was put in, that value is found, in the place of any before.
/// Under every other name is found what was found before.
pub proof fn last_value_is_found<T>(
    registry: &mut Registry<T>,
    name: String,
    value: T,
    before: &Registry<T>,
    after: &Registry<T>,
    other: &str,
    found_before: Option<&T>,
    found: Option<&T>,
    contained: bool,
)
    requires
        call_ensures(Registry::<T>::insert, (registry, name, value), ()),
        call_ensures(Registry::<T>::get, (before, other), found_before),
        call_ensures(Registry::<T>::get, (after, other), found),
        call_ensures(Registry::<T>::contains, (after, other), contained),
        *before == *old(registry),
    ensures
        *after == *final(registry) ==> {
            &&& other@ == name@ ==> found is Some && *found->0 == value
            &&& other@ != name@ ==> (found is Some <==> found_before is Some)
            &&& other@ != name@ && found is Some ==> *found->0 == *found_before->0
            &&& contained <==> found is Some
        },
{
}

/// A new registry has nothing under any name.
pub proof fn new_registry_is_empty<T>(registry: Registry<T>, name: &str, found: Option<&T>)
    requires
        call_ensures(Registry::<T>::new, (), registry),
        call_ensures(Registry::<T>::get, (&registry, name), found),
    ensures
        found is None,
{
}

} // verus!
