//! Secret-like objects: a name and a set of keyed byte payloads.

use vstd::prelude::*;

verus! {

/// What a [`SecretObject`] holds, as mathematical values: its name and its
/// entries, each a key with its payload, in the order they were first inserted.
pub struct SecretObjectView {
    pub name: Seq<char>,
    pub data: Seq<(Seq<char>, Seq<u8>)>,
}

/// No key occurs twice among the entries.
pub open spec fn distinct_keys(data: Seq<(Seq<char>, Seq<u8>)>) -> bool {
    forall|i: int, j: int| 0 <= i < j < data.len() ==> data[i].0 != data[j].0
}

/// Some entry has the given key.
pub open spec fn has_key(data: Seq<(Seq<char>, Seq<u8>)>, key: Seq<char>) -> bool {
    exists|i: int| 0 <= i < data.len() && #[trigger] data[i].0 == key
}

/// The position of an entry with the given key; meaningful where there is one.
pub open spec fn position_of(data: Seq<(Seq<char>, Seq<u8>)>, key: Seq<char>) -> int {
    choose|i: int| 0 <= i < data.len() && #[trigger] data[i].0 == key
}

/// The entries after `key` was given `payload`: an entry that had the key keeps
/// its place and gets the new payload; else a new entry is added at the end.
pub open spec fn with_entry(
    data: Seq<(Seq<char>, Seq<u8>)>,
    key: Seq<char>,
    payload: Seq<u8>,
) -> Seq<(Seq<char>, Seq<u8>)> {
    if has_key(data, key) {
        data.update(position_of(data, key), (key, payload))
    } else {
        data.push((key, payload))
    }
}

/// Giving a key a payload keeps the keys distinct.
pub proof fn lemma_with_entry_distinct(
    data: Seq<(Seq<char>, Seq<u8>)>,
    key: Seq<char>,
    payload: Seq<u8>,
)
    requires
        distinct_keys(data),
    ensures
        distinct_keys(with_entry(data, key, payload)),
        has_key(with_entry(data, key, payload), key),
{
    let after = with_entry(data, key, payload);
    if has_key(data, key) {
        let at = position_of(data, key);
        assert(after[at].0 == key);
        assert forall|i: int, j: int| 0 <= i < j < after.len() implies after[i].0 != after[j].0 by {
            assert(after[i].0 == data[i].0);
            assert(after[j].0 == data[j].0);
        }
    } else {
        assert(after[data.len() as int].0 == key);
        assert forall|i: int, j: int| 0 <= i < j < after.len() implies after[i].0 != after[j].0 by {
            if j == data.len() {
                assert(data[i].0 != key);
            }
        }
    }
}

/// The entries of an object with each key and payload taken by its view.
spec fn entries_view(entries: Seq<(String, Vec<u8>)>) -> Seq<(Seq<char>, Seq<u8>)> {
    Seq::new(entries.len(), |i: int| (entries[i].0@, entries[i].1@))
}

/// A Secret-like object: a name and payloads under distinct keys.
#[derive(Debug)]
pub struct SecretObject {
    name: String,
    entries: Vec<(String, Vec<u8>)>,
}

impl View for SecretObject {
    type V = SecretObjectView;

    closed spec fn view(&self) -> SecretObjectView {
        SecretObjectView {
            name: self.name@,
            data: entries_view(self.entries@),
        }
    }
}

impl SecretObject {
    #[verifier::type_invariant]
    spec fn keys_are_distinct(&self) -> bool {
        distinct_keys(self@.data)
    }

    /// An object of the given name with no entries.
    pub fn new(name: String) -> (object: SecretObject)
        ensures
            object@ == (SecretObjectView { name: name@, data: Seq::empty() }),
    {
        let object = SecretObject { name, entries: Vec::new() };
        assert(object@.data =~= Seq::empty());
        object
    }

    /// The object's name.
    pub fn name(&self) -> (name: &str)
        ensures
            name@ == self@.name,
    {
        self.name.as_str()
    }

    /// The number of entries.
    pub fn len(&self) -> (len: usize)
        ensures
            len == self@.data.len(),
            distinct_keys(self@.data),
    {
        proof {
            use_type_invariant(self);
        }
        self.entries.len()
    }

    /// The key and the payload of the entry at `index`.
    pub fn entry(&self, index: usize) -> (entry: (&str, &[u8]))
        requires
            index < self@.data.len(),
        ensures
            entry.0@ == self@.data[index as int].0,
            entry.1@ == self@.data[index as int].1,
    {
        let pair = &self.entries[index];
        (pair.0.as_str(), pair.1.as_slice())
    }

    /// Gives `key` the payload `payload`, replacing the payload it had, if any.
    pub fn insert(&mut self, key: String, payload: Vec<u8>)
        ensures
            final(self)@.name == old(self)@.name,
            final(self)@.data == with_entry(old(self)@.data, key@, payload@),
            distinct_keys(final(self)@.data),
    {
        proof {
            use_type_invariant(&*self);
            lemma_with_entry_distinct(self@.data, key@, payload@);
        }
        let ghost before = self@.data;
        let mut entries: Vec<(String, Vec<u8>)> = Vec::new();
        std::mem::swap(&mut self.entries, &mut entries);
        assert(entries_view(entries@) =~= before);
        let mut i: usize = 0;
        while i < entries.len()
            invariant
                0 <= i <= entries@.len(),
                entries_view(entries@) == before,
                before == old(self)@.data,
                self.name == old(self).name,
                distinct_keys(before),
                forall|j: int| 0 <= j < i ==> before[j].0 != key@,
            decreases entries@.len() - i,
        {
            if entries[i].0 == key {
                assert(before[i as int].0 == key@);
                assert(has_key(before, key@));
                assert(position_of(before, key@) == i) by {
                    let at = position_of(before, key@);
                    if at < i {
                        assert(before[at].0 != before[i as int].0);
                    } else if at > i {
                        assert(before[i as int].0 != before[at].0);
                    }
                }
                entries.set(i, (key, payload));
                assert(entries_view(entries@) =~= with_entry(before, key@, payload@));
                self.entries = entries;
                return ;
            }
            i += 1;
        }
        assert(!has_key(before, key@));
        entries.push((key, payload));
        assert(entries_view(entries@) =~= with_entry(before, key@, payload@));
        self.entries = entries;
    }
}

} // verus!
