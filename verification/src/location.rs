//! URLs as text: parsing, joining a reference to a base and adding query
//! pairs, as the `url` crate does them.
//!
//! A URL is held by its serialization, the text that `url::Url` keeps of
//! it, so that what a request is sent to can be stated and compared.

use vstd::prelude::*;
use vstd::utf8::encode_utf8;
use crate::text::text_view;

verus! {

/// The error of the `url` crate's parser.
#[verifier::external_type_specification]
#[verifier::external_body]
pub struct ExParseError(url::ParseError);

/// The serialization of the URL that `url::Url::parse` reads from a text,
/// if it reads one.
pub uninterp spec fn url_parsed(text: Seq<char>) -> Option<Seq<char>>;

/// The serialization of the URL that `url::Url::join` makes of a reference
/// and the URL read from `base`, if `base` is a URL and the join succeeds.
pub uninterp spec fn url_joined(base: Seq<char>, reference: Seq<char>) -> Option<Seq<char>>;

/// The serialization of the URL read from `url` after
/// `query_pairs_mut().append_pair(name, value)`, if `url` is a URL.
pub uninterp spec fn url_with_pair(url: Seq<char>, name: Seq<char>, value: Seq<char>) -> Option<
    Seq<char>,
>;

/// The longest text, in bytes, that is given to the query serializer.
/// The `url` crate counts positions in 32 bits. A URL of three texts of
/// this length still fits them when each byte of a name or a value is
/// escaped to three, and the limit leaves room besides for a host name
/// that grows severalfold when it is mapped to ASCII.
pub const TEXT_LIMIT: usize = 0x0400_0000;

/// Whether the UTF-8 form of `text` has `TEXT_LIMIT` bytes at most.
pub open spec fn fits(text: Seq<char>) -> bool {
    encode_utf8(text).len() <= TEXT_LIMIT
}

/// What a wrapper of this module returned, by its characters.
pub open spec fn outcome<E>(r: Result<String, E>) -> Option<Seq<char>> {
    match r {
        Ok(text) => Some(text@),
        Err(_) => None,
    }
}

/// `url::Url::parse`, then the serialization of the URL.
#[verifier::external_body]
fn url_parse(text: &str) -> (r: Result<String, url::ParseError>)
    ensures
        outcome(r) == url_parsed(text@),
{
    Ok(url::Url::parse(text)?.into_string())
}

/// `url::Url::join` on the URL parsed from `base`, then the serialization
/// of the result.
#[verifier::external_body]
fn url_join(base: &str, reference: &str) -> (r: Result<String, url::ParseError>)
    ensures
        outcome(r) == url_joined(base@, reference@),
{
    Ok(url::Url::parse(base)?.join(reference)?.into_string())
}

/// `append_pair` on the `query_pairs_mut` of the URL parsed from `url`,
/// then the serialization of the result. The serializer panics where a
/// position does not fit in 32 bits, hence the limit on the lengths.
#[verifier::external_body]
fn url_append_pair(url: &str, name: &str, value: &str) -> (r: Result<String, url::ParseError>)
    requires
        fits(url@),
        fits(name@),
        fits(value@),
    ensures
        outcome(r) == url_with_pair(url@, name@, value@),
{
    let mut parsed = url::Url::parse(url)?;
    parsed.query_pairs_mut().append_pair(name, value);
    Ok(parsed.into_string())
}

/// The URL that a text writes, in its normal form.
pub fn parse(text: &str) -> (r: Option<String>)
    ensures
        text_view(r) == url_parsed(text@),
{
    match url_parse(text) {
        Ok(url) => Some(url),
        Err(_) => None,
    }
}

/// The URL that `reference` names when read at `base`.
pub fn join(base: &str, reference: &str) -> (r: Option<String>)
    ensures
        text_view(r) == url_joined(base@, reference@),
{
    match url_join(base, reference) {
        Ok(url) => Some(url),
        Err(_) => None,
    }
}

/// `url` with one more pair at the end of its query, if the three texts
/// are short enough for the serializer.
pub open spec fn with_pair(url: Seq<char>, name: Seq<char>, value: Seq<char>) -> Option<Seq<char>> {
    if fits(url) && fits(name) && fits(value) {
        url_with_pair(url, name, value)
    } else {
        None
    }
}

/// Adds the pair `name=value` to the end of the query of `url`.
pub fn append_pair(url: &str, name: &str, value: &str) -> (r: Option<String>)
    ensures
        text_view(r) == with_pair(url@, name@, value@),
{
    if url.as_bytes().len() > TEXT_LIMIT || name.as_bytes().len() > TEXT_LIMIT
        || value.as_bytes().len() > TEXT_LIMIT {
        return None;
    }
    match url_append_pair(url, name, value) {
        Ok(url) => Some(url),
        Err(_) => None,
    }
}

} // verus!
