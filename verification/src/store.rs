//! The key-value session store: a string-keyed store of session records and
//! reverse token indices, with get, set and delete. Expiration is enforced
//! by the callers, never by the store itself.

use vstd::prelude::*;

use crate::token_entity::{Token, TokenV};

verus! {

/// A value held under one key of the store: either the session record of a
/// user (keyed by the user id) or a reverse-index entry mapping a token
/// string back to its owning user id.
#[derive(Debug)]
pub enum StoredValue {
    UserId(String),
    Session(Token),
}

/// Mathematical image of a [`StoredValue`].
pub enum StoredValueV {
    UserId(Seq<char>),
    Session(TokenV),
}

impl View for StoredValue {
    type V = StoredValueV;

    open spec fn view(&self) -> StoredValueV {
        match self {
            StoredValue::UserId(user_id) => StoredValueV::UserId(user_id@),
            StoredValue::Session(pair) => StoredValueV::Session(pair@),
        }
    }
}

/// The store's contents as a list of key-value entries with pairwise
/// distinct keys, read as a map from key to stored value.
spec fn entry_map(s: Seq<(String, StoredValue)>) -> Map<Seq<char>, StoredValueV>
    decreases s.len(),
{
    if s.len() == 0 {
        Map::empty()
    } else {
        entry_map(s.drop_last()).insert(s.last().0@, s.last().1@)
    }
}

spec fn keys_distinct(s: Seq<(String, StoredValue)>) -> bool {
    forall|i: int, j: int| 0 <= i < j < s.len() ==> s[i].0@ != s[j].0@
}

proof fn lemma_keys_distinct_drop_last(s: Seq<(String, StoredValue)>)
    requires
        s.len() > 0,
        keys_distinct(s),
    ensures
        keys_distinct(s.drop_last()),
{
    assert forall|i: int, j: int|
        0 <= i < j < s.drop_last().len() implies s.drop_last()[i].0@ != s.drop_last()[j].0@ by {
        assert(s.drop_last()[i] == s[i]);
        assert(s.drop_last()[j] == s[j]);
    }
}

proof fn lemma_keys_distinct_remove(s: Seq<(String, StoredValue)>, i: int)
    requires
        0 <= i < s.len(),
        keys_distinct(s),
    ensures
        keys_distinct(s.remove(i)),
{
    let s1 = s.remove(i);
    assert forall|p: int, q: int| 0 <= p < q < s1.len() implies s1[p].0@ != s1[q].0@ by {
        let p0: int = if p < i { p } else { p + 1 };
        let q0: int = if q < i { q } else { q + 1 };
        assert(s1[p] == s[p0]);
        assert(s1[q] == s[q0]);
    }
}

proof fn lemma_entry_map_absent(s: Seq<(String, StoredValue)>, k: Seq<char>)
    requires
        forall|i: int| 0 <= i < s.len() ==> s[i].0@ != k,
    ensures
        !entry_map(s).dom().contains(k),
    decreases s.len(),
{
    if s.len() > 0 {
        assert forall|i: int| 0 <= i < s.drop_last().len() implies s.drop_last()[i].0@ != k by {
            assert(s.drop_last()[i] == s[i]);
        }
        lemma_entry_map_absent(s.drop_last(), k);
        assert(s.last().0@ != k);
    }
}

proof fn lemma_entry_map_present(s: Seq<(String, StoredValue)>, i: int)
    requires
        keys_distinct(s),
        0 <= i < s.len(),
    ensures
        entry_map(s).dom().contains(s[i].0@),
        entry_map(s)[s[i].0@] == s[i].1@,
    decreases s.len(),
{
    if i == s.len() - 1 {
    } else {
        lemma_keys_distinct_drop_last(s);
        assert(s.drop_last()[i] == s[i]);
        lemma_entry_map_present(s.drop_last(), i);
        assert(s.last().0@ != s[i].0@);
    }
}

proof fn lemma_entry_map_push(s: Seq<(String, StoredValue)>, e: (String, StoredValue))
    ensures
        entry_map(s.push(e)) == entry_map(s).insert(e.0@, e.1@),
{
    assert(s.push(e).drop_last() =~= s);
    assert(s.push(e).last() == e);
}

proof fn lemma_entry_map_remove(s: Seq<(String, StoredValue)>, i: int)
    requires
        keys_distinct(s),
        0 <= i < s.len(),
    ensures
        entry_map(s.remove(i)) == entry_map(s).remove(s[i].0@),
    decreases s.len(),
{
    let k = s[i].0@;
    if i == s.len() - 1 {
        assert(s.remove(i) =~= s.drop_last());
        assert forall|j: int| 0 <= j < s.drop_last().len() implies s.drop_last()[j].0@ != k by {
            assert(s.drop_last()[j] == s[j]);
        }
        lemma_entry_map_absent(s.drop_last(), k);
        assert(entry_map(s).remove(k) =~= entry_map(s.drop_last()));
    } else {
        let s1 = s.remove(i);
        assert(s1.drop_last() =~= s.drop_last().remove(i));
        assert(s1.last() == s[s.len() - 1]);
        lemma_keys_distinct_drop_last(s);
        assert(s.drop_last()[i] == s[i]);
        lemma_entry_map_remove(s.drop_last(), i);
        assert(s.last().0@ != k);
        assert(entry_map(s1)
            == entry_map(s.drop_last()).remove(k).insert(s.last().0@, s.last().1@));
        assert(entry_map(s.drop_last()).remove(k).insert(s.last().0@, s.last().1@)
            =~= entry_map(s.drop_last()).insert(s.last().0@, s.last().1@).remove(k));
    }
}

/// The key-value session store. Its view is the map it currently holds:
/// `user_id -> session record` together with `token string -> user id`.
#[derive(Debug)]
pub struct SessionStore {
    entries: Vec<(String, StoredValue)>,
}

impl View for SessionStore {
    type V = Map<Seq<char>, StoredValueV>;

    closed spec fn view(&self) -> Map<Seq<char>, StoredValueV> {
        entry_map(self.entries@)
    }
}

impl SessionStore {
    #[verifier::type_invariant]
    spec fn wf(self) -> bool {
        keys_distinct(self.entries@)
    }

    /// An empty store.
    pub fn new() -> (s: Self)
        ensures
            s@ == Map::<Seq<char>, StoredValueV>::empty(),
    {
        SessionStore { entries: Vec::new() }
    }

    /// The position of the entry holding `key`, if the store has one.
    fn index_of(&self, key: &String) -> (r: Option<usize>)
        ensures
            r matches Some(i) ==> i < self.entries@.len() && self.entries@[i as int].0@ == key@,
            r is None ==> forall|j: int| 0 <= j < self.entries@.len()
                ==> self.entries@[j].0@ != key@,
    {
        let mut i: usize = 0;
        while i < self.entries.len()
            invariant
                i <= self.entries@.len(),
                forall|j: int| 0 <= j < i ==> self.entries@[j].0@ != key@,
            decreases self.entries@.len() - i,
        {
            if self.entries[i].0 == *key {
                return Some(i);
            }
            i = i + 1;
        }
        None
    }

    /// Reads the value under `key`, if any.
    pub fn get(&self, key: &String) -> (r: Option<&StoredValue>)
        ensures
            r matches Some(v) ==> self@.contains_key(key@) && v@ == self@[key@],
            r is None ==> !self@.contains_key(key@),
    {
        proof {
            use_type_invariant(self);
        }
        match self.index_of(key) {
            Some(i) => {
                proof {
                    lemma_entry_map_present(self.entries@, i as int);
                }
                Some(&self.entries[i].1)
            },
            None => {
                proof {
                    lemma_entry_map_absent(self.entries@, key@);
                }
                None
            },
        }
    }

    /// Writes `value` under `key`, replacing any previous value.
    pub fn set_value(&mut self, key: String, value: StoredValue)
        ensures
            final(self)@ == old(self)@.insert(key@, value@),
    {
        proof {
            use_type_invariant(&*self);
        }
        let found = self.index_of(&key);
        let ghost s0 = self.entries@;
        let mut entries: Vec<(String, StoredValue)> = Vec::new();
        core::mem::swap(&mut entries, &mut self.entries);
        match found {
            Some(i) => {
                entries.remove(i);
                proof {
                    lemma_entry_map_remove(s0, i as int);
                    lemma_keys_distinct_remove(s0, i as int);
                }
            },
            None => {
                proof {
                    lemma_entry_map_absent(s0, key@);
                }
            },
        }
        proof {
            lemma_entry_map_absent(entries@, key@);
            lemma_entry_map_push(entries@, (key, value));
        }
        entries.push((key, value));
        proof {
            assert(entry_map(entries@) =~= entry_map(s0).insert(key@, value@));
        }
        self.entries = entries;
    }

    /// Deletes the entry under `key`; a key the store does not hold is left
    /// as it is.
    pub fn del(&mut self, key: &String)
        ensures
            final(self)@ == old(self)@.remove(key@),
    {
        proof {
            use_type_invariant(&*self);
        }
        let found = self.index_of(key);
        let ghost s0 = self.entries@;
        match found {
            Some(i) => {
                let mut entries: Vec<(String, StoredValue)> = Vec::new();
                core::mem::swap(&mut entries, &mut self.entries);
                entries.remove(i);
                proof {
                    lemma_entry_map_remove(s0, i as int);
                    lemma_keys_distinct_remove(s0, i as int);
                }
                self.entries = entries;
            },
            None => {
                proof {
                    lemma_entry_map_absent(s0, key@);
                    assert(entry_map(s0).remove(key@) =~= entry_map(s0));
                }
            },
        }
    }
}

} // verus!
