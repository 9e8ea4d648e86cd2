//! Request handling for a document gateway: an HTTP request names a document
//! by its path, its body is stored under that name in a key/value document
//! store, read back, and returned as the response.
//!
//! The library holds the decisions of that exchange. The host performs the
//! store calls and the I/O, and hands each outcome back to the next step.

pub mod exchange;
pub mod key;
pub mod laws;

pub use exchange::{
    BodyRead, Document, Failure, KeyResolved, Response, StoreError, Upserted, STATUS_FAILED,
    STATUS_OK,
};
pub use key::{derive_key, DEFAULT_KEY};
