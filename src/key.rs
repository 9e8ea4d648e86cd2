//! Deriving a document key from a request path.

use vstd::prelude::*;
use vstd::string::*;

verus! {

/// The key used when the request path names no document.
pub const DEFAULT_KEY: &'static str = "demodoc";

/// The characters of [`DEFAULT_KEY`].
pub open spec fn default_key() -> Seq<char> {
    seq!['d', 'e', 'm', 'o', 'd', 'o', 'c']
}

/// The path with one leading separator taken off, where it starts with one.
pub open spec fn strip_separator(path: Seq<char>) -> Seq<char> {
    if path.len() > 0 && path[0] == '/' {
        path.drop_first()
    } else {
        path
    }
}

/// The key that a request path names: the path without its leading
/// separator, or the default key where nothing is left.
pub open spec fn key_for(path: Option<Seq<char>>) -> Seq<char> {
    match path {
        None => default_key(),
        Some(p) => if strip_separator(p).len() == 0 {
            default_key()
        } else {
            strip_separator(p)
        },
    }
}

/// The characters of an optional path.
pub open spec fn path_chars(path: Option<&str>) -> Option<Seq<char>> {
    match path {
        None => None,
        Some(p) => Some(p@),
    }
}

/// The default key as an owned string.
fn default_key_string() -> (key: String)
    ensures
        key@ == default_key(),
{
    proof {
        reveal_strlit("demodoc");
    }
    let key = DEFAULT_KEY.to_owned();
    assert(key@ =~= default_key());
    key
}

/// Derives the document key from the path component of a request target.
///
/// One leading `/` is removed; nothing else is normalised. An absent path,
/// an empty one and `/` alone all give [`DEFAULT_KEY`].
pub fn derive_key(path: Option<&str>) -> (key: String)
    ensures
        key@ == key_for(path_chars(path)),
        key@.len() > 0,
{
    match path {
        None => default_key_string(),
        Some(p) => {
            let n = p.unicode_len();
            let rest: &str = if n > 0 && p.get_char(0) == '/' {
                p.substring_char(1, n)
            } else {
                p
            };
            assert(rest@ =~= strip_separator(p@));
            if rest.is_empty() {
                default_key_string()
            } else {
                rest.to_owned()
            }
        },
    }
}

} // verus!
