//! What holds of whole exchanges, against a model of the document store.
//!
//! The model store maps keys to documents. An upsert that succeeds sets the
//! key; one that is refused leaves the store as it was. A read-back either
//! fails or returns what the store holds under the key.

use vstd::prelude::*;
use vstd::utf8::*;
use crate::exchange::{
    diagnostic, document_for, response_for, value_for, DocumentModel, Failure, ResponseModel,
    STATUS_FAILED, STATUS_OK,
};
use crate::key::{default_key, key_for, strip_separator};

verus! {

broadcast use group_utf8_lib;

/// A call made on the document store.
pub enum StoreCall {
    Upsert(Seq<char>, DocumentModel),
    Get(Seq<char>),
}

/// What one exchange leaves behind: the store's contents, the calls made on
/// it in order, and the response.
pub struct ExchangeModel {
    pub store: Map<Seq<char>, DocumentModel>,
    pub calls: Seq<StoreCall>,
    pub response: ResponseModel,
}

/// One exchange for a request with the given path and body, against a store
/// that holds `store` and refuses the upsert, or fails the read-back, as the
/// two flags say.
pub open spec fn exchange(
    store: Map<Seq<char>, DocumentModel>,
    path: Option<Seq<char>>,
    body: Option<Seq<u8>>,
    upsert_fails: bool,
    get_fails: bool,
) -> ExchangeModel {
    let key = key_for(path);
    match document_for(body) {
        Err(f) => ExchangeModel { store, calls: Seq::empty(), response: response_for(Err(f)) },
        Ok(doc) => if upsert_fails {
            ExchangeModel {
                store,
                calls: seq![StoreCall::Upsert(key, doc)],
                response: response_for(Err(Failure::Upsert)),
            }
        } else {
            let after = store.insert(key, doc);
            let got = if get_fails || !after.contains_key(key) {
                None
            } else {
                Some(after[key])
            };
            ExchangeModel {
                store: after,
                calls: seq![StoreCall::Upsert(key, doc), StoreCall::Get(key)],
                response: response_for(value_for(got)),
            }
        },
    }
}

/// A path yields the default key exactly when it is absent, empty, or a
/// lone separator; the two paths that spell the default key itself, with or
/// without a separator, are set aside.
pub proof fn lemma_default_key_iff_degenerate(path: Option<Seq<char>>)
    requires
        path != Some(default_key()),
        path != Some(seq!['/'] + default_key()),
    ensures
        key_for(path) == default_key() <==> (path is None || path == Some(Seq::<char>::empty())
            || path == Some(seq!['/'])),
{
    let sep: Seq<char> = seq!['/'];
    if let Some(p) = path {
        if p.len() == 0 {
            assert(p =~= Seq::<char>::empty());
        } else if p[0] == '/' {
            assert(p =~= sep + p.drop_first());
            if p.len() == 1 {
                assert(p =~= sep);
            }
        }
    }
}

/// A separator followed by a non-empty rest yields the rest, verbatim.
pub proof fn lemma_key_strips_one_separator(rest: Seq<char>)
    requires
        rest.len() > 0,
    ensures
        key_for(Some(seq!['/'] + rest)) == rest,
{
    assert((seq!['/'] + rest).drop_first() =~= rest);
}

/// When the upsert and the read-back succeed, the response carries the
/// request body byte for byte, with the success status.
pub proof fn lemma_round_trip(
    store: Map<Seq<char>, DocumentModel>,
    path: Option<Seq<char>>,
    body: Seq<u8>,
)
    requires
        valid_utf8(body),
    ensures
        exchange(store, path, Some(body), false, false).response == (ResponseModel {
            status: STATUS_OK,
            body,
        }),
        exchange(store, path, Some(body), false, false).store[key_for(path)] == DocumentModel::Raw(
            decode_utf8(body),
        ),
{
    decode_utf8_encode_utf8(body);
}

/// Handling the same request twice gives the same response both times, and
/// the second run leaves the store as the first left it.
pub proof fn lemma_repeat_converges(
    store: Map<Seq<char>, DocumentModel>,
    path: Option<Seq<char>>,
    body: Option<Seq<u8>>,
)
    ensures
        ({
            let first = exchange(store, path, body, false, false);
            let second = exchange(first.store, path, body, false, false);
            &&& second.response == first.response
            &&& second.store == first.store
            &&& (body matches Some(b) && valid_utf8(b)) ==> first.response.status == STATUS_OK
        }),
{
    let first = exchange(store, path, body, false, false);
    if let Ok(doc) = document_for(body) {
        assert(first.store.insert(key_for(path), doc) =~= first.store);
    }
}

/// A refused upsert ends the exchange: no read-back is made, the store is
/// unchanged, and the response reports the upsert.
pub proof fn lemma_refused_upsert(
    store: Map<Seq<char>, DocumentModel>,
    path: Option<Seq<char>>,
    body: Seq<u8>,
    get_fails: bool,
)
    requires
        valid_utf8(body),
    ensures
        ({
            let e = exchange(store, path, Some(body), true, get_fails);
            &&& e.calls == seq![StoreCall::Upsert(key_for(path), DocumentModel::Raw(decode_utf8(body)))]
            &&& e.store == store
            &&& e.response == response_for(Err(Failure::Upsert))
            &&& e.response.status == STATUS_FAILED
        }),
{
}

/// A failed read-back after an upsert reports the read-back, and the store
/// keeps what was upserted.
pub proof fn lemma_failed_get_keeps_upsert(
    store: Map<Seq<char>, DocumentModel>,
    path: Option<Seq<char>>,
    body: Seq<u8>,
)
    requires
        valid_utf8(body),
    ensures
        ({
            let e = exchange(store, path, Some(body), false, true);
            &&& e.response == response_for(Err(Failure::Get))
            &&& e.response.status == STATUS_FAILED
            &&& e.store.contains_key(key_for(path))
            &&& e.store[key_for(path)] == DocumentModel::Raw(decode_utf8(body))
        }),
{
}

/// Each failed step has a diagnostic of its own.
pub proof fn lemma_diagnostics_distinct(a: Failure, b: Failure)
    requires
        a != b,
    ensures
        diagnostic(a) != diagnostic(b),
{
    reveal_strlit("Failed to read http body");
    reveal_strlit("Failed to upsert document");
    reveal_strlit("Failed to get document");
    reveal_strlit("Failed to read get document");
    assert(diagnostic(Failure::BodyRead).len() != diagnostic(Failure::Upsert).len());
    assert(diagnostic(Failure::BodyRead).len() != diagnostic(Failure::Get).len());
    assert(diagnostic(Failure::BodyRead).len() != diagnostic(Failure::Decode).len());
    assert(diagnostic(Failure::Upsert).len() != diagnostic(Failure::Get).len());
    assert(diagnostic(Failure::Upsert).len() != diagnostic(Failure::Decode).len());
    assert(diagnostic(Failure::Get).len() != diagnostic(Failure::Decode).len());
}

} // verus!
