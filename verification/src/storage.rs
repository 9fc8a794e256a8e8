//! Key-value storage for application settings.
//!
//! A [`Storage`] keeps raw values under string keys, either in memory
//! ([`memory::MemoryBackend`]) or in a file ([`file::FileBackend`]), and
//! stores typed values in RON.

pub mod file;
pub mod keyed;
pub mod memory;

use ron::error::Error as RonError;
use ron::error::SpannedError;
use std::sync::Arc;
use vstd::prelude::*;

use crate::error::Error;
use crate::storage::file::FileBackend;
use crate::storage::memory::MemoryBackend;

verus! {

/// Abstraction for persisting key-value configuration data.
pub trait StorageBackend {
    /// The raw values, by key.
    spec fn values(&self) -> Map<Seq<char>, Seq<u8>>;

    /// Retrieves raw bytes stored under the given key.
    fn get(&self, name: &str) -> (r: Result<Option<Vec<u8>>, Error>)
        ensures
            r matches Ok(found) && match found {
                Some(raw) => self.values().dom().contains(name@) && self.values()[name@] == raw@,
                None => !self.values().dom().contains(name@),
            },
    ;

    /// Stores raw bytes under the given key; on an error nothing changes.
    fn set(&mut self, name: &str, data: Vec<u8>) -> (r: Result<(), Error>)
        ensures
            r is Ok ==> final(self).values() == old(self).values().insert(name@, data@),
            r is Err ==> final(self).values() == old(self).values(),
    ;

    /// Removes the stored value under the given key.
    fn remove(&mut self, name: &str) -> (r: Result<(), Error>)
        ensures
            r is Ok,
            final(self).values() == old(self).values().remove(name@),
    ;

    /// Clears all data.
    fn clear(&mut self) -> (r: Result<(), Error>)
        ensures
            r is Ok,
            final(self).values() == Map::<Seq<char>, Seq<u8>>::empty(),
    ;

    /// Flushes all pending changes to the persistent storage immediately.
    ///
    /// The default implementation has nothing to write.
    fn flush(&self) -> (r: Result<(), Error>)
        opens_invariants none
        no_unwind
    {
        Ok(())
    }
}

/// The backend a [`Storage`] keeps its values in.
pub enum Backend {
    /// Values kept in memory only.
    Memory(MemoryBackend),
    /// Values kept in a file.
    File(FileBackend),
}

/// A handle to the application's configuration storage.
///
/// Values are serialized to RON. A storage flushes its backend when it is
/// dropped.
pub struct Storage {
    backend: Backend,
}

/// Parses a RON document (`ron::de::from_bytes`).
///
/// Nothing is claimed of the result: it depends on how `T` deserializes.
#[verifier::external_body]
fn ron_from_bytes<T: serde::de::DeserializeOwned>(raw: &[u8]) -> Result<T, SpannedError> {
    ron::de::from_bytes(raw)
}

/// Writes a value as a RON document (`ron::ser::to_string`).
///
/// Nothing is claimed of the result: it depends on how `T` serializes.
#[verifier::external_body]
fn ron_to_string<T: serde::Serialize>(value: &T) -> Result<String, RonError> {
    ron::ser::to_string(value)
}

impl Backend {
    /// The raw values, by key.
    pub open spec fn values(&self) -> Map<Seq<char>, Seq<u8>> {
        match self {
            Backend::Memory(m) => m.values(),
            Backend::File(f) => f.values(),
        }
    }
}

impl Storage {
    /// The raw values, by key.
    pub closed spec fn values(&self) -> Map<Seq<char>, Seq<u8>> {
        self.backend.values()
    }

    /// Whether the values are kept in a file.
    pub closed spec fn is_file_backed(&self) -> bool {
        self.backend is File
    }

    /// Creates a storage over `backend`.
    pub fn new(backend: Backend) -> (s: Self)
        ensures
            s.values() == backend.values(),
            s.is_file_backed() == (backend is File),
    {
        Storage { backend }
    }

    /// Retrieves the raw bytes stored under the given key.
    pub fn get_raw(&self, name: &str) -> (r: Result<Option<Vec<u8>>, Error>)
        ensures
            r matches Ok(found) && match found {
                Some(raw) => self.values().dom().contains(name@) && self.values()[name@] == raw@,
                None => !self.values().dom().contains(name@),
            },
    {
        match &self.backend {
            Backend::Memory(m) => m.get(name),
            Backend::File(f) => f.get(name),
        }
    }

    /// Stores raw bytes under the given key; on an error nothing changes.
    pub fn set_raw(&mut self, name: &str, data: Vec<u8>) -> (r: Result<(), Error>)
        ensures
            r is Ok ==> final(self).values() == old(self).values().insert(name@, data@),
            r is Err ==> final(self).values() == old(self).values(),
            vstd::utf8::valid_utf8(data@) ==> r is Ok,
            final(self).is_file_backed() == old(self).is_file_backed(),
    {
        match &mut self.backend {
            Backend::Memory(m) => m.set(name, data),
            Backend::File(f) => f.set(name, data),
        }
    }

    /// Retrieves and deserializes a value from storage under the given key.
    ///
    /// Returns `Ok(None)` exactly when nothing is stored under the key, and
    /// [`Error::StorageParsing`] when the stored value is not a RON document
    /// of type `T`.
    pub fn get<T: serde::de::DeserializeOwned>(&self, name: &str) -> (r: Result<Option<T>, Error>)
        ensures
            r matches Ok(None) <==> !self.values().dom().contains(name@),
            r is Err ==> r matches Err(Error::StorageParsing(_)),
    {
        let raw = match self.get_raw(name) {
            Ok(Some(raw)) => raw,
            Ok(None) => return Ok(None),
            Err(e) => return Err(e),
        };
        match ron_from_bytes(raw.as_slice()) {
            Ok(value) => Ok(Some(value)),
            Err(e) => Err(Error::StorageParsing(e)),
        }
    }

    /// Serializes and stores a value under the given key.
    ///
    /// On success the key holds the RON text of `value` and every other key is
    /// unchanged; [`Error::StorageSerialization`] leaves the storage unchanged.
    pub fn set<T: serde::Serialize>(&mut self, name: &str, value: &T) -> (r: Result<(), Error>)
        ensures
            r is Ok ==> final(self).values().dom() == old(self).values().dom().insert(name@),
            r is Ok ==> forall|k: Seq<char>| k != name@ && #[trigger] old(self).values().dom().contains(k)
                ==> final(self).values()[k] == old(self).values()[k],
            r is Ok ==> exists|text: Seq<char>| final(self).values()[name@] == vstd::utf8::encode_utf8(text),
            r is Err ==> r matches Err(Error::StorageSerialization(_)),
            r is Err ==> final(self).values() == old(self).values(),
    {
        let text = match ron_to_string(value) {
            Ok(text) => text,
            Err(e) => return Err(Error::StorageSerialization(e)),
        };
        let raw = text.as_str().as_bytes_vec();
        proof {
            vstd::utf8::encode_utf8_valid_utf8(text@);
        }
        let r = self.set_raw(name, raw);
        match r {
            Ok(()) => {
                proof {
                    assert(final_values_match(old(self).values(), self.values(), name@));
                    assert(self.values()[name@] == vstd::utf8::encode_utf8(text@));
                }
                Ok(())
            },
            Err(e) => Err(e),
        }
    }

    /// Removes the stored value under the given key.
    pub fn remove(&mut self, name: &str) -> (r: Result<(), Error>)
        ensures
            r is Ok,
            final(self).values() == old(self).values().remove(name@),
    {
        match &mut self.backend {
            Backend::Memory(m) => m.remove(name),
            Backend::File(f) => f.remove(name),
        }
    }

    /// Clears all data.
    pub fn clear(&mut self) -> (r: Result<(), Error>)
        ensures
            r is Ok,
            final(self).values() == Map::<Seq<char>, Seq<u8>>::empty(),
    {
        match &mut self.backend {
            Backend::Memory(m) => m.clear(),
            Backend::File(f) => f.clear(),
        }
    }

    /// Writes all values to their persistent backend; in-memory storage has
    /// nothing to write.
    pub fn flush(&self) -> (r: Result<(), Error>)
        ensures
            !self.is_file_backed() ==> r is Ok,
        opens_invariants none
        no_unwind
    {
        match &self.backend {
            Backend::Memory(m) => m.flush(),
            Backend::File(f) => f.flush(),
        }
    }
}

/// Every key but `name` keeps its value.
pub open spec fn final_values_match(
    before: Map<Seq<char>, Seq<u8>>,
    after: Map<Seq<char>, Seq<u8>>,
    name: Seq<char>,
) -> bool {
    forall|k: Seq<char>| k != name && #[trigger] before.dom().contains(k) ==> after[k] == before[k]
}

impl Default for Storage {
    /// An empty in-memory storage.
    fn default() -> (s: Self)
        ensures
            !s.is_file_backed(),
            s.values() == Map::<Seq<char>, Seq<u8>>::empty(),
    {
        Storage { backend: Backend::Memory(MemoryBackend::new()) }
    }
}

impl Drop for Storage {
    fn drop(&mut self)
        opens_invariants none
        no_unwind
    {
        // A failure to write on drop has no caller to report to.
        let _ = self.flush();
    }
}

/// A value written under a key is what a later read of that key gives
/// back, and every other key keeps what it held.
pub proof fn read_after_write(values: Map<Seq<char>, Seq<u8>>, name: Seq<char>, data: Seq<u8>, other: Seq<char>)
    ensures
        values.insert(name, data).dom().contains(name),
        values.insert(name, data)[name] == data,
        other != name ==> (values.insert(name, data).dom().contains(other) <==> values.dom().contains(other)),
        other != name && values.dom().contains(other) ==> values.insert(name, data)[other] == values[other],
{
}

/// A removed key reads as absent, and every other key keeps what it held.
pub proof fn read_after_remove(values: Map<Seq<char>, Seq<u8>>, name: Seq<char>, other: Seq<char>)
    ensures
        !values.remove(name).dom().contains(name),
        other != name ==> (values.remove(name).dom().contains(other) <==> values.dom().contains(other)),
        other != name && values.dom().contains(other) ==> values.remove(name)[other] == values[other],
{
}

/// After a clear, every key reads as absent.
pub proof fn read_after_clear(name: Seq<char>)
    ensures
        !Map::<Seq<char>, Seq<u8>>::empty().dom().contains(name),
{
}

} // verus!
