use std::sync::{Arc, Mutex};

use egelm::error::Error;
use egelm::storage::file::{FileBackend, StorageSink, FILE_FORMAT_VERSION};
use egelm::storage::memory::MemoryBackend;
use egelm::storage::{Backend, Storage, StorageBackend};

#[derive(Clone, Default)]
struct Recorder {
    written: Arc<Mutex<Vec<(u32, Vec<(String, String)>)>>>,
}

impl StorageSink for Recorder {
    fn write(&self, version: u32, values: &Vec<(String, String)>) -> Result<(), Error> {
        self.written.lock().unwrap().push((version, values.clone()));
        Ok(())
    }
}

#[test]
fn raw_values_read_back_what_was_written() {
    let mut storage = Storage::default();
    assert_eq!(storage.get_raw("a").unwrap(), None);
    storage.set_raw("a", b"one".to_vec()).unwrap();
    storage.set_raw("b", b"two".to_vec()).unwrap();
    storage.set_raw("a", b"three".to_vec()).unwrap();
    assert_eq!(storage.get_raw("a").unwrap(), Some(b"three".to_vec()));
    assert_eq!(storage.get_raw("b").unwrap(), Some(b"two".to_vec()));
    storage.remove("a").unwrap();
    assert_eq!(storage.get_raw("a").unwrap(), None);
    assert_eq!(storage.get_raw("b").unwrap(), Some(b"two".to_vec()));
    storage.clear().unwrap();
    assert_eq!(storage.get_raw("b").unwrap(), None);
    assert!(storage.flush().is_ok());
}

#[test]
fn typed_values_are_stored_as_ron() {
    let mut storage = Storage::new(Backend::Memory(MemoryBackend::new()));
    storage.set("count", &42u32).unwrap();
    assert_eq!(storage.get_raw("count").unwrap(), Some(b"42".to_vec()));
    assert_eq!(storage.get::<u32>("count").unwrap(), Some(42));
    storage.set("name", &"egelm".to_owned()).unwrap();
    assert_eq!(storage.get::<String>("name").unwrap(), Some("egelm".to_owned()));
    assert_eq!(storage.get::<u32>("missing").unwrap(), None);
    assert!(matches!(storage.get::<u32>("name"), Err(Error::StorageParsing(_))));
}

#[test]
fn file_backend_rejects_invalid_utf8_and_keeps_its_values() {
    let mut backend = FileBackend::new(FILE_FORMAT_VERSION, vec![("k".to_owned(), "v".to_owned())], Recorder::default());
    assert!(matches!(backend.set("k", vec![0xff, 0xfe]), Err(Error::ExpectedUtf8(_))));
    assert_eq!(backend.get("k").unwrap(), Some(b"v".to_vec()));
    backend.set("k", "é".as_bytes().to_vec()).unwrap();
    assert_eq!(backend.get("k").unwrap(), Some("é".as_bytes().to_vec()));
}

#[test]
fn file_backend_keeps_the_last_value_of_a_repeated_key() {
    let backend = FileBackend::new(
        3,
        vec![("a".to_owned(), "1".to_owned()), ("b".to_owned(), "2".to_owned()), ("a".to_owned(), "3".to_owned())],
        Recorder::default(),
    );
    assert_eq!(backend.get("a").unwrap(), Some(b"3".to_vec()));
    let (version, values) = backend.snapshot();
    assert_eq!(version, 3);
    assert_eq!(values, vec![("a".to_owned(), "3".to_owned()), ("b".to_owned(), "2".to_owned())]);
}

#[test]
fn dropping_a_file_storage_flushes_it() {
    let recorder = Recorder::default();
    {
        let mut storage = Storage::new(Backend::File(FileBackend::new(FILE_FORMAT_VERSION, vec![], recorder.clone())));
        storage.set_raw("key", b"value".to_vec()).unwrap();
    }
    let written = recorder.written.lock().unwrap();
    assert_eq!(written.len(), 1);
    assert_eq!(written[0], (1, vec![("key".to_owned(), "value".to_owned())]));
}

#[test]
fn snapshot_reloads_into_the_same_values() {
    let mut backend = FileBackend::new(FILE_FORMAT_VERSION, vec![], Recorder::default());
    backend.set("x", b"1".to_vec()).unwrap();
    backend.set("y", b"2".to_vec()).unwrap();
    backend.remove("x").unwrap();
    let (version, values) = backend.snapshot();
    let reloaded = FileBackend::new(version, values, Recorder::default());
    assert_eq!(reloaded.get("x").unwrap(), None);
    assert_eq!(reloaded.get("y").unwrap(), Some(b"2".to_vec()));
}
