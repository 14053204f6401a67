//! The parts of a URI that the deep-link parser reads, as the `url` crate
//! parses them.

use vstd::prelude::*;

verus! {

/// Whether `url::Url::parse` accepts the text as an absolute URL.
pub uninterp spec fn uri_parses(s: Seq<char>) -> bool;

/// `Url::scheme` of the parsed text.
pub uninterp spec fn uri_scheme(s: Seq<char>) -> Seq<char>;

/// `Url::host_str` of the parsed text.
pub uninterp spec fn uri_host(s: Seq<char>) -> Option<Seq<char>>;

/// `Url::path` of the parsed text.
pub uninterp spec fn uri_path(s: Seq<char>) -> Seq<char>;

/// `Url::query_pairs` of the parsed text: the query's key/value pairs in the
/// order in which they stand, decoded as a form (percent escapes decoded, `+`
/// read as a space).
pub uninterp spec fn uri_query_pairs(s: Seq<char>) -> Seq<(Seq<char>, Seq<char>)>;

/// A parsed absolute URI, held as plain strings.
pub struct UriParts {
    pub scheme: String,
    pub host: Option<String>,
    pub path: String,
    pub query: Vec<(String, String)>,
}

/// Relies on `url::Url::parse` to parse `s`, and on `scheme`, `host_str`,
/// `path` and `query_pairs` of the parsed `Url` to read its parts.
#[verifier::external_body]
pub(crate) fn split_uri(s: &str) -> (r: Option<UriParts>)
    ensures
        r is Some <==> uri_parses(s@),
        r matches Some(p) ==> {
            &&& p.scheme@ == uri_scheme(s@)
            &&& p.host.deep_view() == uri_host(s@)
            &&& p.path@ == uri_path(s@)
            &&& p.query.deep_view() == uri_query_pairs(s@)
        },
{
    let u = url::Url::parse(s).ok()?;
    Some(UriParts {
        scheme: u.scheme().to_string(),
        host: u.host_str().map(|h| h.to_string()),
        path: u.path().to_string(),
        query: u.query_pairs().map(|(k, v)| (k.into_owned(), v.into_owned())).collect(),
    })
}

} // verus!
