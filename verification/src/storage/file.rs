//! Storage that keeps values as UTF-8 text in a file.

use std::string::FromUtf8Error;
use std::sync::Arc;

use vstd::prelude::*;

use crate::error::Error;
use crate::storage::keyed::{has_key, items_map, lemma_value_at, unique_keys, KeyedList};
use crate::storage::StorageBackend;

verus! {

/// Writes the contents of a file-backed storage to its file.
pub trait StorageSink: Send + Sync {
    /// Writes the format `version` and the `values` to the file.
    ///
    /// It runs when a storage is dropped, so it must not panic.
    #[allow(unused_variables)]
    fn write(&self, version: u32, values: &Vec<(String, String)>) -> (r: Result<(), Error>)
        opens_invariants none
        no_unwind
    {
        Ok(())
    }
}

/// Boxes a sink as a shared trait object (`Box::new` and `Arc::new`, with the
/// unsizing coercion that Verus does not model).
#[verifier::external_body]
fn shared_sink<S: StorageSink + 'static>(sink: S) -> Arc<Box<dyn StorageSink>> {
    Arc::new(Box::new(sink))
}

/// Decodes UTF-8 text (`String::from_utf8`).
///
/// Claims, as std documents, that the conversion succeeds exactly on valid
/// UTF-8 and then holds the decoded characters.
#[verifier::external_body]
fn string_from_utf8(bytes: Vec<u8>) -> (r: Result<String, FromUtf8Error>)
    ensures
        r is Ok <==> vstd::utf8::valid_utf8(bytes@),
        r matches Ok(s) ==> s@ == vstd::utf8::decode_utf8(bytes@),
{
    String::from_utf8(bytes)
}

/// The bytes of each stored text.
pub open spec fn encoded_values(texts: Map<Seq<char>, Seq<char>>) -> Map<Seq<char>, Seq<u8>> {
    Map::new(|k: Seq<char>| texts.dom().contains(k), |k: Seq<char>| vstd::utf8::encode_utf8(texts[k]))
}

/// The format version written into a new storage file.
pub const FILE_FORMAT_VERSION: u32 = 1;

/// The texts that a list of key-value pairs stands for: each pair stored in
/// turn, so that a key given twice keeps its last value.
pub open spec fn pairs_map(values: Seq<(String, String)>) -> Map<Seq<char>, Seq<char>>
    decreases values.len(),
{
    if values.len() == 0 {
        Map::empty()
    } else {
        pairs_map(values.drop_last()).insert(values.last().0@, values.last().1@)
    }
}

/// A storage backend that keeps values as UTF-8 text and writes them through
/// a [`StorageSink`] on flush.
pub struct FileBackend {
    version: u32,
    texts: KeyedList<String>,
    sink: Arc<Box<dyn StorageSink>>,
}

impl FileBackend {
    /// The stored texts, by key.
    pub closed spec fn texts(&self) -> Map<Seq<char>, Seq<char>> {
        self.texts@
    }

    /// The format version of the file.
    pub closed spec fn file_version(&self) -> u32 {
        self.version
    }

    /// Creates a backend for a file that held `version` and `values`; a key
    /// that occurs more than once keeps its last value.
    pub fn new<S: StorageSink + 'static>(version: u32, values: Vec<(String, String)>, sink: S) -> (f: Self)
        ensures
            f.file_version() == version,
            f.texts() == pairs_map(values@),
    {
        let mut texts: KeyedList<String> = KeyedList::new();
        let mut i: usize = 0;
        let n = values.len();
        while i < n
            invariant
                n == values@.len(),
                i <= n,
                texts@ == pairs_map(values@.take(i as int)),
            decreases n - i,
        {
            let k = values[i].0.clone();
            let v = values[i].1.clone();
            assert(values@.take(i + 1).drop_last() =~= values@.take(i as int));
            assert(values@.take(i + 1).last() == values@[i as int]);
            texts.insert(k, v);
            i = i + 1;
        }
        assert(values@.take(n as int) =~= values@);
        FileBackend { version, texts, sink: shared_sink(sink) }
    }

    /// The format version and the values, for writing to the file.
    pub fn snapshot(&self) -> (r: (u32, Vec<(String, String)>))
        ensures
            r.0 == self.file_version(),
            unique_keys(r.1@),
            items_map(r.1@) == self.texts(),
    {
        let items = self.texts.items();
        let mut out: Vec<(String, String)> = Vec::new();
        let mut i: usize = 0;
        while i < items.len()
            invariant
                i <= items@.len(),
                out@ == items@.take(i as int),
            decreases items@.len() - i,
        {
            let pair = (items[i].0.clone(), items[i].1.clone());
            out.push(pair);
            assert(out@ =~= items@.take(i + 1));
            i = i + 1;
        }
        assert(items@.take(items@.len() as int) =~= items@);
        (self.version, out)
    }
}

impl StorageBackend for FileBackend {
    closed spec fn values(&self) -> Map<Seq<char>, Seq<u8>> {
        encoded_values(self.texts())
    }

    fn get(&self, name: &str) -> (r: Result<Option<Vec<u8>>, Error>) {
        match self.texts.get(name) {
            Some(text) => Ok(Some(text.as_str().as_bytes_vec())),
            None => Ok(None),
        }
    }

    fn set(&mut self, name: &str, data: Vec<u8>) -> (r: Result<(), Error>)
        ensures
            r is Ok <==> vstd::utf8::valid_utf8(data@),
            r is Err ==> r matches Err(Error::ExpectedUtf8(_)),
    {
        let ghost bytes = data@;
        match string_from_utf8(data) {
            Ok(text) => {
                proof {
                    vstd::utf8::decode_utf8_encode_utf8(bytes);
                }
                self.texts.insert(name.to_owned(), text);
                proof {
                    assert(encoded_values(self.texts()) =~= encoded_values(old(self).texts()).insert(name@, bytes));
                }
                Ok(())
            },
            Err(e) => Err(Error::ExpectedUtf8(e)),
        }
    }

    fn remove(&mut self, name: &str) -> (r: Result<(), Error>) {
        self.texts.remove(name);
        proof {
            assert(encoded_values(self.texts()) =~= encoded_values(old(self).texts()).remove(name@));
        }
        Ok(())
    }

    fn clear(&mut self) -> (r: Result<(), Error>) {
        self.texts.clear();
        proof {
            assert(encoded_values(self.texts()) =~= Map::<Seq<char>, Seq<u8>>::empty());
        }
        Ok(())
    }

    fn flush(&self) -> (r: Result<(), Error>) {
        self.sink.write(self.version, self.texts.items())
    }
}

/// What a file backend writes is what it reads back: the pairs of a
/// snapshot, loaded again, stand for the same texts.
pub proof fn snapshot_reloads(items: Seq<(String, String)>)
    requires
        unique_keys(items),
    ensures
        pairs_map(items) == items_map(items),
    decreases items.len(),
{
    if items.len() == 0 {
        assert(items_map(items) =~= Map::<Seq<char>, Seq<char>>::empty());
    } else {
        let init = items.drop_last();
        let n = items.len() - 1;
        assert(unique_keys(init)) by {
            assert forall|i: int, j: int|
                0 <= i < init.len() && 0 <= j < init.len() && i != j implies (#[trigger] init[i]).0@ != (#[trigger] init[j]).0@ by {
                assert(init[i] == items[i] && init[j] == items[j]);
            }
        }
        snapshot_reloads(init);
        let last = items.last();
        assert forall|k: Seq<char>| #[trigger] pairs_map(items).dom().contains(k)
            <==> items_map(items).dom().contains(k) by {
            if items_map(items).dom().contains(k) {
                let i = choose|i: int| 0 <= i < items.len() && (#[trigger] items[i]).0@ == k;
                if i < n {
                    assert(init[i] == items[i]);
                    assert(has_key(init, k));
                }
            }
            if pairs_map(items).dom().contains(k) && k != last.0@ {
                let i = choose|i: int| 0 <= i < init.len() && (#[trigger] init[i]).0@ == k;
                assert(items[i] == init[i]);
                assert(has_key(items, k));
            }
            if k == last.0@ {
                assert(items[n] == last);
                assert(has_key(items, k));
            }
        }
        assert forall|k: Seq<char>| #[trigger] items_map(items).dom().contains(k)
            implies pairs_map(items)[k] == items_map(items)[k] by {
            let i = choose|i: int| 0 <= i < items.len() && (#[trigger] items[i]).0@ == k;
            lemma_value_at(items, i);
            if i < n {
                assert(init[i] == items[i]);
                lemma_value_at(init, i);
                assert(items[i].0@ != items[n].0@);
            }
        }
        assert(pairs_map(items) =~= items_map(items));
    }
}

} // verus!
