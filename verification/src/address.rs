//! The URLs that requests are sent to, and the calls into the `url` crate
//! that resolve a path and extend a query string.
//!
//! A URL stays a `url::Url`. The verifier knows of one only what the spec
//! functions below name: the pairs that its query string spells, the rest of
//! its text, and the length of the whole.

use vstd::prelude::*;
use std::borrow::Cow;
use vstd::utf8::encode_utf8;

verus! {

/// An absolute URL.
#[verifier::external_type_specification]
#[verifier::external_body]
pub struct ExUrl(url::Url);

/// The reason why a text is no URL.
#[verifier::external_type_specification]
#[verifier::external_body]
pub struct ExParseError(url::ParseError);

/// A name with its value, as a query string carries them.
pub type Pair = (Seq<char>, Seq<char>);

/// The name and value pairs that the URL's query string spells, in its order.
/// A URL without a query string has none.
pub uninterp spec fn url_pairs(url: url::Url) -> Seq<Pair>;

/// What the URL says beside its query string: scheme, authority, path and
/// fragment.
pub uninterp spec fn url_place(url: url::Url) -> Seq<char>;

/// The number of bytes in the URL's text.
pub uninterp spec fn url_length(url: url::Url) -> nat;

/// The URL that `path` names when read relative to `base`, where it names one.
pub uninterp spec fn joined_url(base: url::Url, path: Seq<char>) -> Option<url::Url>;

/// The longest URL text, in bytes, that the `url` crate can index.
pub const URL_LIMIT: u64 = 0xffff_ffff;

/// An upper bound on the bytes that one pair adds to a query string: each of
/// its bytes may be written as three, and a separator stands before the pair
/// and between its two halves.
pub open spec fn pair_room(pair: Pair) -> nat {
    3 * encode_utf8(pair.0).len() + 3 * encode_utf8(pair.1).len() + 2
}

/// An upper bound on the bytes that the pairs add to a query string.
pub open spec fn pairs_room(pairs: Seq<Pair>) -> nat
    decreases pairs.len(),
{
    if pairs.len() == 0 {
        0
    } else {
        pairs_room(pairs.drop_last()) + pair_room(pairs.last())
    }
}

/// Whether the pairs can be added to a URL of `length` bytes without passing
/// the limit: one byte is kept for the question mark.
pub open spec fn pairs_fit(length: nat, pairs: Seq<Pair>) -> bool {
    length + 1 + pairs_room(pairs) <= URL_LIMIT
}

/// `Url::join`: the URL that `path` names relative to `base`, or the parser's
/// error. The same base and path always give the same answer.
#[verifier::external_body]
pub(crate) fn join(base: &url::Url, path: &str) -> (joined: Result<url::Url, url::ParseError>)
    ensures
        joined is Ok == joined_url(*base, path@) is Some,
        joined is Ok ==> joined->Ok_0 == joined_url(*base, path@)->0,
{
    base.join(path)
}

/// `Url::as_str` and the length of the text it returns.
#[verifier::external_body]
pub(crate) fn length_of(url: &url::Url) -> (length: usize)
    ensures
        length == url_length(*url),
{
    url.as_str().len()
}

/// `Url::query_pairs_mut` followed by `extend_pairs`: writes the pairs behind
/// those that the query string already spells, in the order given, and
/// leaves the rest of the URL as it was. The `url` crate indexes a URL's text
/// with 32 bits and panics beyond, so the caller keeps the result under that
/// limit.
#[verifier::external_body]
pub(crate) fn append_pairs(url: &mut url::Url, pairs: &Vec<(Cow<'_, str>, Cow<'_, str>)>)
    requires
        pairs_fit(url_length(*old(url)), pairs.deep_view()),
    ensures
        url_pairs(*final(url)) == url_pairs(*old(url)) + pairs.deep_view(),
        url_place(*final(url)) == url_place(*old(url)),
{
    url.query_pairs_mut().extend_pairs(pairs.iter());
}

/// `url::ParseError::Overflow`, the error that the `url` crate gives for a
/// URL that is too long for it.
#[verifier::external_body]
pub(crate) fn too_long() -> url::ParseError {
    url::ParseError::Overflow
}

} // verus!
