//! Storage that keeps values in memory only.

use vstd::prelude::*;

use crate::error::Error;
use crate::storage::keyed::KeyedList;
use crate::storage::StorageBackend;

verus! {

/// A storage backend that keeps raw values in memory.
pub struct MemoryBackend {
    values: KeyedList<Vec<u8>>,
}

impl MemoryBackend {
    /// Creates an empty backend.
    pub fn new() -> (m: Self)
        ensures
            m.values() == Map::<Seq<char>, Seq<u8>>::empty(),
    {
        MemoryBackend { values: KeyedList::new() }
    }
}

impl Default for MemoryBackend {
    fn default() -> (m: Self)
        ensures
            m.values() == Map::<Seq<char>, Seq<u8>>::empty(),
    {
        MemoryBackend::new()
    }
}

impl StorageBackend for MemoryBackend {
    closed spec fn values(&self) -> Map<Seq<char>, Seq<u8>> {
        self.values@
    }

    fn get(&self, name: &str) -> (r: Result<Option<Vec<u8>>, Error>) {
        match self.values.get(name) {
            Some(v) => Ok(Some(v.clone())),
            None => Ok(None),
        }
    }

    fn set(&mut self, name: &str, data: Vec<u8>) -> (r: Result<(), Error>)
        ensures
            r is Ok,
    {
        self.values.insert(name.to_owned(), data);
        Ok(())
    }

    fn remove(&mut self, name: &str) -> (r: Result<(), Error>) {
        self.values.remove(name);
        Ok(())
    }

    fn clear(&mut self) -> (r: Result<(), Error>) {
        self.values.clear();
        Ok(())
    }

    fn flush(&self) -> (r: Result<(), Error>)
        ensures
            r is Ok,
    {
        Ok(())
    }
}

} // verus!
