//! The steps of one request: read the body, upsert it, read it back, answer.
//!
//! Each step is a value that holds what the next store call needs and takes
//! that call's outcome. A step can only be left forward, so the calls are made
//! in order and a failed step ends the exchange with a [`Failure`].

use vstd::prelude::*;
use vstd::slice::slice_to_vec;
use vstd::utf8::*;
use crate::key::{derive_key, key_for, path_chars};

verus! {

/// Status of a response that carries the stored document.
pub const STATUS_OK: u16 = 200;

/// Status of a response that reports a failed step.
pub const STATUS_FAILED: u16 = 500;

/// A document as the store holds it.
#[derive(Clone, Debug, PartialEq, Eq)]
pub enum Document {
    /// Raw text, the only kind this gateway writes or returns.
    Raw(String),
    /// Any other kind of document; its contents are not looked at.
    Other,
}

/// The contents of a [`Document`] as values.
pub enum DocumentModel {
    Raw(Seq<char>),
    Other,
}

impl View for Document {
    type V = DocumentModel;

    open spec fn view(&self) -> DocumentModel {
        match self {
            Document::Raw(s) => DocumentModel::Raw(s@),
            Document::Other => DocumentModel::Other,
        }
    }
}

/// A call on the document store that did not succeed. Its cause does not
/// change how the request is answered.
#[derive(Clone, Copy, Debug, PartialEq, Eq)]
pub struct StoreError;

/// The step at which handling a request failed.
#[derive(Clone, Copy, Debug, PartialEq, Eq, Structural)]
pub enum Failure {
    /// The body could not be read to its end, or is not UTF-8 text.
    BodyRead,
    /// The store refused the upsert.
    Upsert,
    /// The store could not return the document just written.
    Get,
    /// The store returned a document that is not raw text.
    Decode,
}

/// The text that reports a failure in a response body.
pub open spec fn diagnostic(f: Failure) -> Seq<char> {
    match f {
        Failure::BodyRead => "Failed to read http body"@,
        Failure::Upsert => "Failed to upsert document"@,
        Failure::Get => "Failed to get document"@,
        Failure::Decode => "Failed to read get document"@,
    }
}

impl Failure {
    /// The diagnostic text for this failure.
    pub fn message(&self) -> (text: &'static str)
        ensures
            text@ == diagnostic(*self),
    {
        match self {
            Failure::BodyRead => "Failed to read http body",
            Failure::Upsert => "Failed to upsert document",
            Failure::Get => "Failed to get document",
            Failure::Decode => "Failed to read get document",
        }
    }
}

/// The answer to a request.
#[derive(Clone, Debug, PartialEq, Eq)]
pub struct Response {
    pub status: u16,
    pub body: Vec<u8>,
}

/// A [`Response`] as values.
pub struct ResponseModel {
    pub status: u16,
    pub body: Seq<u8>,
}

impl View for Response {
    type V = ResponseModel;

    open spec fn view(&self) -> ResponseModel {
        ResponseModel { status: self.status, body: self.body@ }
    }
}

/// The document that a request body becomes: its text, where the whole body
/// was read and is valid UTF-8.
pub open spec fn document_for(body: Option<Seq<u8>>) -> Result<DocumentModel, Failure> {
    match body {
        None => Err(Failure::BodyRead),
        Some(b) => if valid_utf8(b) {
            Ok(DocumentModel::Raw(decode_utf8(b)))
        } else {
            Err(Failure::BodyRead)
        },
    }
}

/// The value that a read-back yields: the text of a raw document; `None`
/// stands for a failed read.
pub open spec fn value_for(got: Option<DocumentModel>) -> Result<Seq<char>, Failure> {
    match got {
        None => Err(Failure::Get),
        Some(DocumentModel::Raw(v)) => Ok(v),
        Some(DocumentModel::Other) => Err(Failure::Decode),
    }
}

/// The response for the end of an exchange: the value's UTF-8 bytes with
/// [`STATUS_OK`], or the failure's diagnostic with [`STATUS_FAILED`].
pub open spec fn response_for(outcome: Result<Seq<char>, Failure>) -> ResponseModel {
    match outcome {
        Ok(v) => ResponseModel { status: STATUS_OK, body: encode_utf8(v) },
        Err(f) => ResponseModel { status: STATUS_FAILED, body: encode_utf8(diagnostic(f)) },
    }
}

/// An outcome with its text as characters.
pub open spec fn outcome_chars(outcome: Result<String, Failure>) -> Result<Seq<char>, Failure> {
    match outcome {
        Ok(v) => Ok(v@),
        Err(f) => Err(f),
    }
}

/// Relies on std's `String::from_utf8`: it succeeds exactly on valid UTF-8,
/// and then holds the characters that the bytes encode.
#[verifier::external_body]
fn text_from_utf8(bytes: Vec<u8>) -> (text: Option<String>)
    ensures
        text is Some <==> valid_utf8(bytes@),
        text matches Some(t) ==> t@ == decode_utf8(bytes@),
{
    String::from_utf8(bytes).ok()
}

/// The UTF-8 bytes of a text.
fn utf8_bytes(text: &str) -> (bytes: Vec<u8>)
    ensures
        bytes@ == encode_utf8(text@),
{
    slice_to_vec(text.as_bytes())
}

impl Response {
    /// The response that ends an exchange with the given outcome.
    pub fn from_outcome(outcome: Result<String, Failure>) -> (r: Response)
        ensures
            r@ == response_for(outcome_chars(outcome)),
    {
        match outcome {
            Ok(value) => Response { status: STATUS_OK, body: utf8_bytes(value.as_str()) },
            Err(f) => Response { status: STATUS_FAILED, body: utf8_bytes(f.message()) },
        }
    }
}

/// The first step: the key is known, the body is still to be read.
pub struct KeyResolved {
    pub key: String,
}

/// The body has been read into a document that is to be upserted under `key`.
pub struct BodyRead {
    pub key: String,
    pub document: Document,
}

/// The document has been upserted under `key` and is to be read back.
pub struct Upserted {
    pub key: String,
}

impl KeyResolved {
    /// Starts an exchange for a request whose target has the given path.
    pub fn new(path: Option<&str>) -> (r: KeyResolved)
        ensures
            r.key@ == key_for(path_chars(path)),
    {
        KeyResolved { key: derive_key(path) }
    }

    /// Takes the request body, or `None` where reading it failed.
    pub fn body_read(self, body: Option<Vec<u8>>) -> (r: Result<BodyRead, Failure>)
        ensures
            match document_for(body_bytes(body)) {
                Ok(d) => r matches Ok(next) && next.key@ == self.key@ && next.document@ == d,
                Err(f) => r == Err::<BodyRead, Failure>(f),
            },
    {
        match body {
            None => Err(Failure::BodyRead),
            Some(bytes) => match text_from_utf8(bytes) {
                None => Err(Failure::BodyRead),
                Some(text) => Ok(BodyRead { key: self.key, document: Document::Raw(text) }),
            },
        }
    }
}

/// The bytes of an optional body.
pub open spec fn body_bytes(body: Option<Vec<u8>>) -> Option<Seq<u8>> {
    match body {
        None => None,
        Some(b) => Some(b@),
    }
}

impl BodyRead {
    /// Takes the outcome of upserting `document` under `key`.
    pub fn upserted(self, result: Result<(), StoreError>) -> (r: Result<Upserted, Failure>)
        ensures
            result is Ok ==> (r matches Ok(next) && next.key@ == self.key@),
            result is Err ==> r == Err::<Upserted, Failure>(Failure::Upsert),
    {
        match result {
            Ok(()) => Ok(Upserted { key: self.key }),
            Err(_) => Err(Failure::Upsert),
        }
    }
}

/// A read-back outcome as values: the document, or `None` where it failed.
pub open spec fn got_model(result: Result<Document, StoreError>) -> Option<DocumentModel> {
    match result {
        Ok(d) => Some(d@),
        Err(_) => None,
    }
}

impl Upserted {
    /// Takes the outcome of reading the document under `key` back, and gives
    /// the value to return.
    pub fn retrieved(self, result: Result<Document, StoreError>) -> (r: Result<String, Failure>)
        ensures
            outcome_chars(r) == value_for(got_model(result)),
    {
        match result {
            Err(_) => Err(Failure::Get),
            Ok(Document::Raw(value)) => Ok(value),
            Ok(Document::Other) => Err(Failure::Decode),
        }
    }
}

} // verus!
