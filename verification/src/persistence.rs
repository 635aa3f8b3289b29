//! The minimal key/value durability capability used for account bootstrap
//! material: write a byte blob under a string key, read it back, last write
//! wins. No transactions and no ordering across keys.

use vstd::prelude::*;
use vstd::slice::slice_to_vec;
use crate::models::clone_bytes;

verus! {

/// Last-write-wins lookup over a journal of writes: the most recent entry
/// for the key decides.
pub closed spec fn lookup(entries: Seq<(String, Vec<u8>)>, key: Seq<char>) -> Option<Seq<u8>>
    decreases entries.len(),
{
    if entries.len() == 0 {
        None
    } else if entries.last().0@ == key {
        Some(entries.last().1@)
    } else {
        lookup(entries.drop_last(), key)
    }
}

/// An in-memory persistence backend: a plain key-to-bytes mapping with
/// last-write-wins semantics and no eviction.
pub struct InMemoryPersistence {
    entries: Vec<(String, Vec<u8>)>,
}

impl InMemoryPersistence {
    /// The bytes currently stored under a key, if any.
    pub closed spec fn spec_read(&self, key: Seq<char>) -> Option<Seq<u8>> {
        lookup(self.entries@, key)
    }

    /// An empty backend: no key has a value.
    pub fn new() -> (r: InMemoryPersistence)
        ensures
            forall|k: Seq<char>| #[trigger] r.spec_read(k) is None,
    {
        InMemoryPersistence { entries: Vec::new() }
    }

    /// Store `value` under `key`, replacing any earlier value. Never fails.
    pub fn write(&mut self, key: &str, value: &[u8]) -> (r: Result<(), ()>)
        ensures
            r is Ok,
            final(self).spec_read(key@) == Some(value@),
            forall|k: Seq<char>| k != key@ ==> final(self).spec_read(k) == old(self).spec_read(k),
    {
        let entry = (key.to_owned(), slice_to_vec(value));
        self.entries.push(entry);
        proof {
            assert(self.entries@.drop_last() =~= old(self).entries@);
        }
        Ok(())
    }

    /// The value last written under `key`, or `None` if the key was never
    /// written. Never fails.
    pub fn read(&self, key: &str) -> (r: Result<Option<Vec<u8>>, ()>)
        ensures
            r matches Ok(v) && match v {
                Some(bytes) => self.spec_read(key@) == Some(bytes@),
                None => self.spec_read(key@) is None,
            },
    {
        let key_string = key.to_owned();
        let mut i: usize = self.entries.len();
        proof {
            assert(self.entries@.take(i as int) =~= self.entries@);
        }
        while i > 0
            invariant
                i <= self.entries@.len(),
                key_string@ == key@,
                lookup(self.entries@, key@) == lookup(self.entries@.take(i as int), key@),
            decreases i,
        {
            i = i - 1;
            proof {
                assert(self.entries@.take(i + 1).drop_last() =~= self.entries@.take(i as int));
                assert(self.entries@.take(i + 1).last() == self.entries@[i as int]);
            }
            if self.entries[i].0 == key_string {
                return Ok(Some(clone_bytes(&self.entries[i].1)));
            }
        }
        Ok(None)
    }
}

impl Default for InMemoryPersistence {
    /// An empty backend, as [`InMemoryPersistence::new`] builds.
    fn default() -> (r: Self)
        ensures
            forall|k: Seq<char>| #[trigger] r.spec_read(k) is None,
    {
        Self::new()
    }
}

} // verus!
