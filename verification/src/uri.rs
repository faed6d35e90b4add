//! Resolving the target of a redirection.

use http::Uri;
use iri_string::types::{UriAbsoluteStr, UriReferenceStr};
use vstd::prelude::*;
use vstd::utf8::{decode_utf8, encode_utf8, valid_utf8};

verus! {

/// Whether `text` is a URI reference: whether `UriReferenceStr::new` of `iri_string`
/// accepts it.
pub uninterp spec fn uri_reference(text: Seq<char>) -> bool;

/// Whether `text` is an absolute URI, one with a scheme and without a fragment:
/// whether `UriAbsoluteStr::new` of `iri_string` accepts it.
pub uninterp spec fn absolute_uri(text: Seq<char>) -> bool;

/// The URI that the reference `relative` denotes when it is met at `base`: the text
/// that `UriReferenceStr::resolve_against` of `iri_string` gives for the two.
pub uninterp spec fn reference_target(relative: Seq<char>, base: Seq<char>) -> Seq<char>;

/// The text under which `http::Uri` holds `text`, where it accepts it: what
/// `Uri::try_from` of `text` prints.
pub uninterp spec fn http_uri_text(text: Seq<char>) -> Option<Seq<char>>;

/// The text of an optional string.
pub open spec fn text_of(text: Option<String>) -> Option<Seq<char>> {
    match text {
        Some(t) => Some(t@),
        None => None,
    }
}

/// The text that `bytes` encode, where they are UTF-8.
pub open spec fn utf8_text(bytes: Seq<u8>) -> Option<Seq<char>> {
    if valid_utf8(bytes) {
        Some(decode_utf8(bytes))
    } else {
        None
    }
}

/// The target of a redirection to `relative` from a request for `base`, as the next
/// request will name it; nothing where one of the two is malformed or where `http::Uri`
/// cannot hold the result.
pub open spec fn resolved_location(relative: Seq<char>, base: Seq<char>) -> Option<Seq<char>> {
    if uri_reference(relative) && absolute_uri(base) {
        http_uri_text(reference_target(relative, base))
    } else {
        None
    }
}

/// Calls `core::str::from_utf8`. Claimed of it: it succeeds on the byte sequences that
/// are valid UTF-8, and the string it gives then consists of the very same bytes.
#[verifier::external_body]
pub(crate) fn str_from_utf8(bytes: &[u8]) -> (text: Option<&str>)
    ensures
        text.is_some() == valid_utf8(bytes@),
        text matches Some(t) ==> encode_utf8(t@) == bytes@,
{
    core::str::from_utf8(bytes).ok()
}

/// Calls `UriReferenceStr::resolve_against` of `iri_string`, on what
/// `UriReferenceStr::new` makes of `relative` and `UriAbsoluteStr::new` of `base`.
/// Claimed of it: there is a result where both parse, and it is then the text that
/// the resolution prints. The resolution itself does not fail.
#[verifier::external_body]
pub(crate) fn resolve_reference(relative: &str, base: &str) -> (target: Option<String>)
    ensures
        target.is_some() == (uri_reference(relative@) && absolute_uri(base@)),
        target matches Some(t) ==> t@ == reference_target(relative@, base@),
{
    let relative = UriReferenceStr::new(relative).ok()?;
    let base = UriAbsoluteStr::new(base).ok()?;
    Some(relative.resolve_against(base).to_string())
}

/// Calls `Uri::try_from` of `http` on a string slice and prints what it gives.
/// Claimed of it: nothing but that the result depends on the text alone.
#[verifier::external_body]
pub(crate) fn canonical_uri(text: &str) -> (canonical: Option<String>)
    ensures
        text_of(canonical) == http_uri_text(text@),
{
    Uri::try_from(text).ok().map(|uri| uri.to_string())
}

/// The text of `bytes`, where they are UTF-8.
pub fn decode_location(bytes: &[u8]) -> (text: Option<&str>)
    ensures
        text.is_some() == utf8_text(bytes@).is_some(),
        text matches Some(t) ==> t@ == utf8_text(bytes@).unwrap(),
{
    let text = str_from_utf8(bytes);
    proof {
        if let Some(t) = text {
            vstd::utf8::encode_utf8_decode_utf8(t@);
        }
    }
    text
}

/// Try to resolve a URI reference `relative` against a base URI `base`.
pub fn resolve_uri(relative: &str, base: &str) -> (location: Option<String>)
    ensures
        text_of(location) == resolved_location(relative@, base@),
{
    match resolve_reference(relative, base) {
        Some(target) => canonical_uri(target.as_str()),
        None => None,
    }
}

} // verus!
