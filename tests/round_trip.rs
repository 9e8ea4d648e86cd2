use std::collections::HashMap;

use doc_gateway::{
    Document, Failure, KeyResolved, Response, StoreError, STATUS_FAILED, STATUS_OK,
};

/// An in-memory document store that can be told to refuse calls.
struct FakeStore {
    docs: HashMap<String, Document>,
    refuse_upsert: bool,
    fail_get: bool,
    return_other: bool,
    upserts: usize,
    gets: usize,
}

impl FakeStore {
    fn new() -> FakeStore {
        FakeStore {
            docs: HashMap::new(),
            refuse_upsert: false,
            fail_get: false,
            return_other: false,
            upserts: 0,
            gets: 0,
        }
    }

    fn upsert(&mut self, key: &str, doc: Document) -> Result<(), StoreError> {
        self.upserts += 1;
        if self.refuse_upsert {
            return Err(StoreError);
        }
        self.docs.insert(key.to_string(), doc);
        Ok(())
    }

    fn get(&mut self, key: &str) -> Result<Document, StoreError> {
        self.gets += 1;
        if self.fail_get {
            return Err(StoreError);
        }
        if self.return_other {
            return Ok(Document::Other);
        }
        self.docs.get(key).cloned().ok_or(StoreError)
    }
}

/// Runs one request through the steps against the store.
fn handle(store: &mut FakeStore, path: Option<&str>, body: Option<Vec<u8>>) -> Response {
    let outcome = KeyResolved::new(path)
        .body_read(body)
        .and_then(|read| {
            let result = store.upsert(&read.key, read.document.clone());
            read.upserted(result)
        })
        .and_then(|upserted| {
            let result = store.get(&upserted.key);
            upserted.retrieved(result)
        });
    Response::from_outcome(outcome)
}

#[test]
fn greeting_is_stored_and_returned() {
    let mut store = FakeStore::new();
    let r = handle(&mut store, Some("/greeting"), Some(b"hello".to_vec()));
    assert_eq!(r.status, 200);
    assert_eq!(r.body, b"hello".to_vec());
    assert_eq!(store.docs.get("greeting"), Some(&Document::Raw("hello".to_string())));
    assert_eq!(store.docs.len(), 1);
}

#[test]
fn root_path_uses_default_key() {
    let mut store = FakeStore::new();
    let r = handle(&mut store, Some("/"), Some(b"x".to_vec()));
    assert_eq!(r.status, STATUS_OK);
    assert_eq!(r.body, b"x".to_vec());
    assert_eq!(store.docs.get("demodoc"), Some(&Document::Raw("x".to_string())));
}

#[test]
fn empty_and_absent_paths_use_default_key() {
    let mut store = FakeStore::new();
    let r = handle(&mut store, Some(""), Some(b"x".to_vec()));
    assert_eq!(r.status, STATUS_OK);
    assert_eq!(r.body, b"x".to_vec());
    let r = handle(&mut store, None, Some(b"y".to_vec()));
    assert_eq!(r.body, b"y".to_vec());
    assert_eq!(store.docs.get("demodoc"), Some(&Document::Raw("y".to_string())));
    assert_eq!(store.docs.len(), 1);
}

#[test]
fn refused_upsert_reports_upsert_and_makes_no_get() {
    let mut store = FakeStore::new();
    store.refuse_upsert = true;
    let r = handle(&mut store, Some("/greeting"), Some(b"hello".to_vec()));
    assert_eq!(r.status, STATUS_FAILED);
    assert_eq!(r.body, b"Failed to upsert document".to_vec());
    assert_eq!(store.upserts, 1);
    assert_eq!(store.gets, 0);
    assert!(store.docs.is_empty());
}

#[test]
fn failed_get_reports_get_and_keeps_upsert() {
    let mut store = FakeStore::new();
    store.fail_get = true;
    let r = handle(&mut store, Some("/greeting"), Some(b"hello".to_vec()));
    assert_eq!(r.status, 500);
    assert_eq!(r.body, b"Failed to get document".to_vec());
    assert_eq!(store.gets, 1);
    assert_eq!(store.docs.get("greeting"), Some(&Document::Raw("hello".to_string())));
}

#[test]
fn non_raw_document_reports_decode() {
    let mut store = FakeStore::new();
    store.return_other = true;
    let r = handle(&mut store, Some("/greeting"), Some(b"hello".to_vec()));
    assert_eq!(r.status, 500);
    assert_eq!(r.body, b"Failed to read get document".to_vec());
}

#[test]
fn failed_body_read_reports_body_and_touches_no_store() {
    let mut store = FakeStore::new();
    let r = handle(&mut store, Some("/greeting"), None);
    assert_eq!(r.status, 500);
    assert_eq!(r.body, b"Failed to read http body".to_vec());
    assert_eq!(store.upserts, 0);
    assert_eq!(store.gets, 0);
}

#[test]
fn invalid_utf8_body_reports_body_read() {
    let mut store = FakeStore::new();
    let r = handle(&mut store, Some("/bin"), Some(vec![0x66, 0xff, 0x6f]));
    assert_eq!(r.status, 500);
    assert_eq!(r.body, b"Failed to read http body".to_vec());
    assert_eq!(store.upserts, 0);
}

#[test]
fn non_ascii_body_round_trips_byte_for_byte() {
    let mut store = FakeStore::new();
    let body = "h\u{e9}llo \u{2713} \u{1f600}".as_bytes().to_vec();
    let r = handle(&mut store, Some("/note"), Some(body.clone()));
    assert_eq!(r.status, 200);
    assert_eq!(r.body, body);
    assert_eq!(
        store.docs.get("note"),
        Some(&Document::Raw("h\u{e9}llo \u{2713} \u{1f600}".to_string()))
    );
}

#[test]
fn empty_body_round_trips() {
    let mut store = FakeStore::new();
    let r = handle(&mut store, Some("/empty"), Some(Vec::new()));
    assert_eq!(r.status, 200);
    assert!(r.body.is_empty());
}

#[test]
fn repeating_a_request_gives_the_same_response() {
    let mut store = FakeStore::new();
    let first = handle(&mut store, Some("/greeting"), Some(b"hello".to_vec()));
    let after_first: Vec<(String, Document)> =
        store.docs.iter().map(|(k, v)| (k.clone(), v.clone())).collect();
    let second = handle(&mut store, Some("/greeting"), Some(b"hello".to_vec()));
    let after_second: Vec<(String, Document)> =
        store.docs.iter().map(|(k, v)| (k.clone(), v.clone())).collect();
    assert_eq!(first, second);
    assert_eq!(first.status, 200);
    assert_eq!(after_first, after_second);
}

#[test]
fn later_write_replaces_earlier() {
    let mut store = FakeStore::new();
    handle(&mut store, Some("/greeting"), Some(b"hello".to_vec()));
    let r = handle(&mut store, Some("/greeting"), Some(b"bye".to_vec()));
    assert_eq!(r.body, b"bye".to_vec());
    assert_eq!(store.docs.get("greeting"), Some(&Document::Raw("bye".to_string())));
}

#[test]
fn diagnostics_are_distinct() {
    let all = [Failure::BodyRead, Failure::Upsert, Failure::Get, Failure::Decode];
    for (i, a) in all.iter().enumerate() {
        for b in all.iter().skip(i + 1) {
            assert_ne!(a.message(), b.message());
        }
    }
    assert_eq!(Failure::Upsert.message(), "Failed to upsert document");
}

#[test]
fn steps_carry_the_key_forward() {
    let read = KeyResolved::new(Some("/a/b")).body_read(Some(b"v".to_vec())).unwrap();
    assert_eq!(read.key, "a/b");
    assert_eq!(read.document, Document::Raw("v".to_string()));
    let upserted = read.upserted(Ok(())).unwrap();
    assert_eq!(upserted.key, "a/b");
    assert_eq!(upserted.retrieved(Err(StoreError)), Err(Failure::Get));
}

#[test]
fn success_response_carries_value_bytes() {
    let r = Response::from_outcome(Ok("caf\u{e9}".to_string()));
    assert_eq!(r, Response { status: 200, body: vec![0x63, 0x61, 0x66, 0xc3, 0xa9] });
    let r = Response::from_outcome(Err(Failure::Decode));
    assert_eq!(r.status, 500);
    assert_eq!(r.body, b"Failed to read get document".to_vec());
}
