//! The connection registry: live session handles under caller-chosen names.
//!
//! Names are unique; connecting under a taken name replaces its handle, and
//! disconnecting removes it. The registry holds no lock itself: its owner
//! wraps it in one and keeps every critical section to a single call here,
//! never across a query.

use vstd::prelude::*;
use crate::error::DbError;
use crate::text::same_text;

verus! {

/// Handles of type `H` under unique names.
pub struct ConnectionRegistry<H> {
    entries: Vec<(String, H)>,
    map: Ghost<Map<Seq<char>, H>>,
}

impl<H> View for ConnectionRegistry<H> {
    type V = Map<Seq<char>, H>;

    closed spec fn view(&self) -> Map<Seq<char>, H> {
        self.map@
    }
}

impl<H> ConnectionRegistry<H> {
    /// The entries hold unique names and agree with the registry's map.
    pub closed spec fn wf(&self) -> bool {
        &&& forall|i: int, j: int|
            0 <= i < j < self.entries@.len() ==> (#[trigger] self.entries@[i]).0@ != (
            #[trigger] self.entries@[j]).0@
        &&& forall|i: int|
            0 <= i < self.entries@.len() ==> self.map@.contains_key((#[trigger] self.entries@[i]).0@)
                && self.map@[self.entries@[i].0@] == self.entries@[i].1
        &&& forall|k: Seq<char>|
            #[trigger] self.map@.contains_key(k) ==> exists|i: int|
                0 <= i < self.entries@.len() && (#[trigger] self.entries@[i]).0@ == k
    }

    /// A registry without entries.
    pub fn new() -> (r: Self)
        ensures
            r@ == Map::<Seq<char>, H>::empty(),
            r.wf(),
    {
        ConnectionRegistry { entries: Vec::new(), map: Ghost(Map::empty()) }
    }

    fn find(&self, name: &str) -> (r: Option<usize>)
        requires
            self.wf(),
        ensures
            match r {
                Option::Some(i) => i < self.entries@.len() && self.entries@[i as int].0@ == name@,
                Option::None => !self@.contains_key(name@) && forall|j: int|
                    0 <= j < self.entries@.len() ==> (#[trigger] self.entries@[j]).0@ != name@,
            },
    {
        let mut i: usize = 0;
        while i < self.entries.len()
            invariant
                i <= self.entries@.len(),
                forall|j: int| 0 <= j < i ==> (#[trigger] self.entries@[j]).0@ != name@,
            decreases self.entries@.len() - i,
        {
            if same_text(self.entries[i].0.as_str(), name) {
                return Option::Some(i);
            }
            i = i + 1;
        }
        Option::None
    }

    /// Whether a handle is registered under the name.
    pub fn contains(&self, name: &str) -> (r: bool)
        requires
            self.wf(),
        ensures
            r == self@.contains_key(name@),
    {
        match self.find(name) {
            Option::Some(i) => {
                assert(self@.contains_key(self.entries@[i as int].0@));
                true
            },
            Option::None => false,
        }
    }

    /// The handle registered under the name; `UnknownConnectionName` where
    /// there is none.
    pub fn get(&self, name: &str) -> (r: Result<&H, DbError>)
        requires
            self.wf(),
        ensures
            self@.contains_key(name@) ==> r is Ok && *r->Ok_0 == self@[name@],
            !self@.contains_key(name@) ==> r is Err && r->Err_0 is UnknownConnectionName && r->Err_0->UnknownConnectionName_0@ == name@,
    {
        match self.find(name) {
            Option::Some(i) => Ok(&self.entries[i].1),
            Option::None => Err(DbError::UnknownConnectionName(String::from_str(name))),
        }
    }

    /// Registers the handle under the name, replacing any handle that the
    /// name had.
    pub fn connect(&mut self, name: String, handle: H)
        requires
            old(self).wf(),
        ensures
            final(self).wf(),
            final(self)@ == old(self)@.insert(name@, handle),
    {
        let ghost key = name@;
        let ghost m0 = self.map@;
        match self.find(name.as_str()) {
            Option::Some(i) => {
                let _ = self.remove_at(i);
            },
            Option::None => {},
        }
        assert(self.map@ =~= m0.remove(key));
        assert forall|j: int| 0 <= j < self.entries@.len() implies (#[trigger] self.entries@[j]).0@ != key by {
            if self.entries@[j].0@ == key {
                assert(self.map@.contains_key(key));
            }
        }
        let ghost e0 = self.entries@;
        self.entries.push((name, handle));
        self.map = Ghost(m0.insert(key, handle));
        assert(self.map@ =~= m0.insert(key, handle));
        assert forall|k: Seq<char>| #[trigger] self.map@.contains_key(k) implies exists|i: int|
            0 <= i < self.entries@.len() && (#[trigger] self.entries@[i]).0@ == k by {
            if k == key {
                assert(self.entries@[e0.len() as int].0@ == k);
            } else {
                assert(m0.remove(key).contains_key(k));
                let i = choose|i: int| 0 <= i < e0.len() && (#[trigger] e0[i]).0@ == k;
                assert(self.entries@[i].0@ == k);
            }
        }
        assert forall|i: int| 0 <= i < self.entries@.len() implies self.map@.contains_key((#[trigger] self.entries@[i]).0@)
            && self.map@[self.entries@[i].0@] == self.entries@[i].1 by {
            if i < e0.len() {
                assert(self.entries@[i] == e0[i]);
                assert(m0.remove(key).contains_key(e0[i].0@));
            }
        }
    }

    /// Drops the entry at the index from the entries and the map.
    fn remove_at(&mut self, i: usize) -> (r: H)
        requires
            old(self).wf(),
            i < old(self).entries@.len(),
        ensures
            r == old(self).entries@[i as int].1,
            final(self).wf(),
            final(self).map@ == old(self).map@.remove(old(self).entries@[i as int].0@),
            final(self).entries@ == old(self).entries@.remove(i as int),
    {
        let ghost e0 = self.entries@;
        let ghost m0 = self.map@;
        let ghost key = e0[i as int].0@;
        let removed = self.entries.remove(i);
        self.map = Ghost(m0.remove(key));
        assert forall|j: int| 0 <= j < self.entries@.len() implies self.map@.contains_key((#[trigger] self.entries@[j]).0@)
            && self.map@[self.entries@[j].0@] == self.entries@[j].1 by {
            let o = if j < i { j } else { j + 1 };
            assert(self.entries@[j] == e0[o]);
            assert(e0[o].0@ != key);
        }
        assert forall|k: Seq<char>| #[trigger] self.map@.contains_key(k) implies exists|j: int|
            0 <= j < self.entries@.len() && (#[trigger] self.entries@[j]).0@ == k by {
            let o = choose|o: int| 0 <= o < e0.len() && (#[trigger] e0[o]).0@ == k;
            assert(o != i);
            let j = if o < i { o } else { o - 1 };
            assert(self.entries@[j] == e0[o]);
        }
        assert forall|a: int, b: int| 0 <= a < b < self.entries@.len() implies (#[trigger] self.entries@[a]).0@ != (
            #[trigger] self.entries@[b]).0@ by {
            let oa = if a < i { a } else { a + 1 };
            let ob = if b < i { b } else { b + 1 };
            assert(self.entries@[a] == e0[oa]);
            assert(self.entries@[b] == e0[ob]);
        }
        removed.1
    }

    /// Removes the handle registered under the name and hands it back;
    /// `UnknownConnectionName`, with the registry unchanged, where there is
    /// none.
    pub fn disconnect(&mut self, name: &str) -> (r: Result<H, DbError>)
        requires
            old(self).wf(),
        ensures
            final(self).wf(),
            old(self)@.contains_key(name@) ==> r is Ok && r->Ok_0 == old(self)@[name@] && final(self)@ == old(self)@.remove(name@),
            !old(self)@.contains_key(name@) ==> r is Err && r->Err_0 is UnknownConnectionName && r->Err_0->UnknownConnectionName_0@ == name@ && final(self)@ == old(self)@,
    {
        match self.find(name) {
            Option::Some(i) => {
                let ghost e0 = self.entries@;
                let ghost m0 = self.map@;
                let h = self.remove_at(i);
                assert(m0.contains_key(e0[i as int].0@));
                Ok(h)
            },
            Option::None => Err(DbError::UnknownConnectionName(String::from_str(name))),
        }
    }
}

/// Connecting twice under one name leaves the second handle in place of the
/// first, as if only the second connect had happened.
pub proof fn lemma_reconnect_replaces<H>(m: Map<Seq<char>, H>, name: Seq<char>, first: H, second: H)
    ensures
        m.insert(name, first).insert(name, second) == m.insert(name, second),
        m.insert(name, first).insert(name, second)[name] == second,
{
    assert(m.insert(name, first).insert(name, second) =~= m.insert(name, second));
}

} // verus!
