//! Calls into the `url` crate: URL parsing and the
//! `application/x-www-form-urlencoded` encoding and decoding.
//!
//! What these calls compute is a function of their input alone, so each
//! result is given a name; the contracts of the library speak of those names.

use vstd::prelude::*;

verus! {

/// The parts of a parsed URL that the library reads.
#[derive(Debug, Clone, PartialEq, Eq)]
pub struct UrlParts {
    /// The scheme, as `Url::scheme` reports it.
    pub scheme: String,
    /// The host, as `Url::host_str` reports it.
    pub host: Option<String>,
    /// The path, as `Url::path` reports it.
    pub path: String,
    /// The whole serialization, as `Url::to_string` produces it.
    pub href: String,
}

/// Scheme, host, path and serialization of a URL, as character sequences.
pub type UrlPartsView = (Seq<char>, Option<Seq<char>>, Seq<char>, Seq<char>);

pub open spec fn opt_string_view(o: Option<String>) -> Option<Seq<char>> {
    match o {
        Some(s) => Some(s@),
        None => None,
    }
}

pub open spec fn url_parts_view(p: UrlParts) -> UrlPartsView {
    (p.scheme@, opt_string_view(p.host), p.path@, p.href@)
}

pub open spec fn opt_url_parts_view(o: Option<UrlParts>) -> Option<UrlPartsView> {
    match o {
        Some(p) => Some(url_parts_view(p)),
        None => None,
    }
}

/// The host of parsed parts, or the empty sequence when there is none
/// (what `host_str().unwrap_or("")` gives).
pub open spec fn host_or_empty(p: UrlPartsView) -> Seq<char> {
    match p.1 {
        Some(h) => h,
        None => Seq::empty(),
    }
}

/// What `url::Url::parse` makes of an input: `None` where it refuses the
/// input, else the scheme, host, path and serialization of the parsed URL.
pub uninterp spec fn url_parse(input: Seq<char>) -> Option<UrlPartsView>;

/// Calls `url::Url::parse` and reads `scheme`, `host_str`, `path` and the
/// serialization of the result. The contract claims only that the outcome
/// is the named function of the input; how the WHATWG URL rules parse is
/// not restated.
#[verifier::external_body]
pub(crate) fn parse_url(input: &str) -> (r: Option<UrlParts>)
    ensures
        opt_url_parts_view(r) == url_parse(input@),
{
    match url::Url::parse(input) {
        Ok(u) => Some(
            UrlParts {
                scheme: u.scheme().to_string(),
                host: u.host_str().map(|h| h.to_string()),
                path: u.path().to_string(),
                href: u.to_string(),
            },
        ),
        Err(_) => None,
    }
}

/// Name and value pairs as character sequences.
pub open spec fn pairs_view(v: Seq<(String, String)>) -> Seq<(Seq<char>, Seq<char>)> {
    v.map_values(|p: (String, String)| (p.0@, p.1@))
}

/// What `url::form_urlencoded::Serializer` produces from a list of pairs,
/// in order, starting from an empty string.
pub uninterp spec fn form_urlencoded_serialize(pairs: Seq<(Seq<char>, Seq<char>)>) -> Seq<char>;

/// What `url::form_urlencoded::parse` yields from the UTF-8 bytes of a
/// string, in order.
pub uninterp spec fn form_urlencoded_parse(input: Seq<char>) -> Seq<(Seq<char>, Seq<char>)>;

/// Calls `url::form_urlencoded::Serializer::extend_pairs` on a fresh
/// serializer and finishes it. The contract says only that the result is
/// the named function of the pairs.
#[verifier::external_body]
pub(crate) fn form_encode(pairs: &Vec<(String, String)>) -> (r: String)
    ensures
        r@ == form_urlencoded_serialize(pairs_view(pairs@)),
{
    url::form_urlencoded::Serializer::new(String::new()).extend_pairs(
        pairs.iter().map(|p| (p.0.as_str(), p.1.as_str())),
    ).finish()
}

/// Calls `url::form_urlencoded::parse` on the bytes of `input` and collects
/// the decoded pairs. The contract says only that the result is the named
/// function of the input.
#[verifier::external_body]
pub(crate) fn form_decode(input: &str) -> (r: Vec<(String, String)>)
    ensures
        pairs_view(r@) == form_urlencoded_parse(input@),
{
    url::form_urlencoded::parse(input.as_bytes()).map(|(k, v)| (k.into_owned(), v.into_owned())).collect()
}

/// What the serialization of `url::Url::parse(base)` is after
/// `query_pairs_mut().extend_pairs(pairs)`; `None` where `base` is not a
/// URL.
pub uninterp spec fn url_with_query_pairs(base: Seq<char>, pairs: Seq<(Seq<char>, Seq<char>)>) -> Option<Seq<char>>;

pub open spec fn opt_text_view(o: Option<String>) -> Option<Seq<char>> {
    match o {
        Some(s) => Some(s@),
        None => None,
    }
}

/// Calls `url::Url::parse` on `base`, appends the pairs in order with
/// `query_pairs_mut`, and serializes the URL; `None` where `base` is not a
/// URL. The contract says only that the result is the named function of
/// its arguments.
#[verifier::external_body]
pub(crate) fn url_with_query(base: &str, pairs: &Vec<(String, String)>) -> (r: Option<String>)
    ensures
        opt_text_view(r) == url_with_query_pairs(base@, pairs_view(pairs@)),
{
    match url::Url::parse(base) {
        Ok(mut u) => {
            u.query_pairs_mut().extend_pairs(pairs.iter().map(|p| (p.0.as_str(), p.1.as_str())));
            Some(u.to_string())
        },
        Err(_) => None,
    }
}

} // verus!
