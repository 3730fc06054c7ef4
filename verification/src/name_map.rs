//! A small map from names to values, kept as a list of entries.
use vstd::prelude::*;

verus! {

/// Entries from names to values. A name looks up the first entry that carries it;
/// `insert` replaces that entry, or appends one.
#[derive(Debug)]
pub struct NameMap<T> {
    entries: Vec<(String, T)>,
}

/// The value of the first entry of `entries` named `key`.
pub open spec fn lookup<T>(entries: Seq<(String, T)>, key: Seq<char>) -> Option<T>
    decreases entries.len(),
{
    if entries.len() == 0 {
        None
    } else if entries[0].0@ == key {
        Some(entries[0].1)
    } else {
        lookup(entries.drop_first(), key)
    }
}

proof fn lemma_lookup_skip<T>(entries: Seq<(String, T)>, key: Seq<char>, i: int)
    requires
        0 <= i <= entries.len(),
        forall|j: int| 0 <= j < i ==> (#[trigger] entries[j]).0@ != key,
    ensures
        lookup(entries, key) == lookup(entries.skip(i), key),
    decreases i,
{
    if i > 0 {
        assert(entries.skip(1) =~= entries.drop_first());
        lemma_lookup_skip(entries.drop_first(), key, i - 1);
        assert(entries.drop_first().skip(i - 1) =~= entries.skip(i));
    } else {
        assert(entries.skip(0) =~= entries);
    }
}

proof fn lemma_lookup_absent<T>(entries: Seq<(String, T)>, key: Seq<char>)
    requires
        forall|j: int| 0 <= j < entries.len() ==> (#[trigger] entries[j]).0@ != key,
    ensures
        lookup(entries, key) is None,
    decreases entries.len(),
{
    if entries.len() > 0 {
        assert forall|j: int| 0 <= j < entries.drop_first().len() implies (
        #[trigger] entries.drop_first()[j]).0@ != key by {
            assert(entries.drop_first()[j] == entries[j + 1]);
        }
        lemma_lookup_absent(entries.drop_first(), key);
    }
}

proof fn lemma_lookup_update<T>(
    entries: Seq<(String, T)>,
    i: int,
    name: String,
    value: T,
    key: Seq<char>,
)
    requires
        0 <= i < entries.len(),
        entries[i].0@ == name@,
        forall|j: int| 0 <= j < i ==> (#[trigger] entries[j]).0@ != name@,
    ensures
        lookup(entries.update(i, (name, value)), key) == if key == name@ {
            Some(value)
        } else {
            lookup(entries, key)
        },
    decreases i,
{
    let upd = entries.update(i, (name, value));
    if i == 0 {
        assert(upd.drop_first() =~= entries.drop_first());
    } else {
        assert(upd.drop_first() =~= entries.drop_first().update(i - 1, (name, value)));
        assert forall|j: int| 0 <= j < i - 1 implies (#[trigger] entries.drop_first()[j]).0@
            != name@ by {
            assert(entries.drop_first()[j] == entries[j + 1]);
        }
        lemma_lookup_update(entries.drop_first(), i - 1, name, value, key);
    }
}

proof fn lemma_lookup_push<T>(entries: Seq<(String, T)>, name: String, value: T, key: Seq<char>)
    requires
        lookup(entries, name@) is None,
    ensures
        lookup(entries.push((name, value)), key) == if key == name@ {
            Some(value)
        } else {
            lookup(entries, key)
        },
    decreases entries.len(),
{
    let p = entries.push((name, value));
    assert(p.len() > 0);
    assert(lookup(p, key) == if p[0].0@ == key {
        Some(p[0].1)
    } else {
        lookup(p.drop_first(), key)
    });
    if entries.len() > 0 {
        assert(p[0] == entries[0]);
        assert(entries[0].0@ != name@);
        assert(p.drop_first() =~= entries.drop_first().push((name, value)));
        lemma_lookup_push(entries.drop_first(), name, value, key);
    } else {
        assert(p[0] == (name, value));
        assert(p.drop_first() =~= Seq::<(String, T)>::empty());
    }
}

impl<T> NameMap<T> {
    /// The map from names to values.
    pub closed spec fn view(&self) -> Map<Seq<char>, T> {
        Map::new(
            |k: Seq<char>| lookup(self.entries@, k) is Some,
            |k: Seq<char>| lookup(self.entries@, k)->0,
        )
    }

    proof fn lemma_view(&self, k: Seq<char>)
        ensures
            self.view().contains_key(k) == (lookup(self.entries@, k) is Some),
            self.view().contains_key(k) ==> self.view()[k] == lookup(self.entries@, k)->0,
    {
    }

    /// An empty map.
    pub fn new() -> (r: NameMap<T>)
        ensures
            r.view() == Map::<Seq<char>, T>::empty(),
    {
        let r = NameMap { entries: Vec::new() };
        assert(r.view() =~= Map::<Seq<char>, T>::empty());
        r
    }

    /// The index of the first entry named `key`, if any.
    fn find(&self, key: &str) -> (r: Option<usize>)
        ensures
            match r {
                Some(i) => {
                    &&& i < self.entries@.len()
                    &&& self.entries@[i as int].0@ == key@
                    &&& forall|j: int| 0 <= j < i ==> (#[trigger] self.entries@[j]).0@ != key@
                },
                None => forall|j: int|
                    0 <= j < self.entries@.len() ==> (#[trigger] self.entries@[j]).0@ != key@,
            },
    {
        let key_string = key.to_owned();
        let mut i: usize = 0;
        while i < self.entries.len()
            invariant
                i <= self.entries@.len(),
                key_string@ == key@,
                forall|j: int| 0 <= j < i ==> (#[trigger] self.entries@[j]).0@ != key@,
            decreases self.entries@.len() - i,
        {
            if self.entries[i].0 == key_string {
                return Some(i);
            }
            i = i + 1;
        }
        None
    }

    /// The value stored under `key`.
    pub fn get(&self, key: &str) -> (r: Option<&T>)
        ensures
            match r {
                Some(v) => self.view().contains_key(key@) && self.view()[key@] == *v,
                None => !self.view().contains_key(key@),
            },
    {
        match self.find(key) {
            Some(i) => {
                proof {
                    lemma_lookup_skip(self.entries@, key@, i as int);
                    assert(self.entries@.skip(i as int)[0] == self.entries@[i as int]);
                }
                Some(&self.entries[i].1)
            },
            None => {
                proof {
                    lemma_lookup_absent(self.entries@, key@);
                }
                None
            },
        }
    }

    /// Stores `value` under `key`, in place of any value stored there before.
    pub fn insert(&mut self, key: String, value: T)
        ensures
            final(self).view() == old(self).view().insert(key@, value),
    {
        let ghost old_entries = self.entries@;
        match self.find(key.as_str()) {
            Some(i) => {
                proof {
                    assert forall|k: Seq<char>|
                        lookup(old_entries.update(i as int, (key, value)), k) == if k == key@ {
                            Some(value)
                        } else {
                            lookup(old_entries, k)
                        } by {
                        lemma_lookup_update(old_entries, i as int, key, value, k);
                    }
                }
                self.entries.set(i, (key, value));
            },
            None => {
                proof {
                    lemma_lookup_absent(old_entries, key@);
                    assert forall|k: Seq<char>|
                        lookup(old_entries.push((key, value)), k) == if k == key@ {
                            Some(value)
                        } else {
                            lookup(old_entries, k)
                        } by {
                        lemma_lookup_push(old_entries, key, value, k);
                    }
                }
                self.entries.push((key, value));
            },
        }
        assert(self.view() =~= old(self).view().insert(key@, value));
    }
}

} // verus!
