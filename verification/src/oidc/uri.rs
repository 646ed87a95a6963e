//! Reading URIs with the `http` crate.

use vstd::prelude::*;

verus! {

/// Whether `s` parses as an `http::Uri`.
pub uninterp spec fn uri_parses(s: Seq<char>) -> bool;

/// The scheme `http::Uri::scheme_str` gives for the URI `s`.
pub uninterp spec fn uri_scheme_of(s: Seq<char>) -> Option<Seq<char>>;

/// The host `http::Uri::host` gives for the URI `s`.
pub uninterp spec fn uri_host_of(s: Seq<char>) -> Option<Seq<char>>;

/// The query `http::Uri::query` gives for the URI `s`.
pub uninterp spec fn uri_query_of(s: Seq<char>) -> Option<Seq<char>>;

/// The text of the error `http::Uri` reports for `s` where it does not parse.
pub uninterp spec fn uri_error_text_of(s: Seq<char>) -> Seq<char>;

/// The views of an optional string.
pub open spec fn opt_view(o: Option<String>) -> Option<Seq<char>> {
    match o {
        Some(s) => Some(s@),
        None => None,
    }
}

/// The parts of a parsed URI that the service looks at.
#[derive(Debug)]
pub struct UriParts {
    pub scheme: Option<String>,
    pub host: Option<String>,
    pub query: Option<String>,
}

/// Parses `s` as an `http::Uri` (its `FromStr`) and reads its scheme
/// (`scheme_str`), host (`host`) and query (`query`); where it does not
/// parse, gives the error's text (`Display` of `InvalidUri`). Each of these
/// is named by a spec function of the same URI text.
#[verifier::external_body]
pub(crate) fn parse_uri(s: &str) -> (r: Result<UriParts, String>)
    ensures
        match r {
            Ok(p) => uri_parses(s@) && opt_view(p.scheme) == uri_scheme_of(s@) && opt_view(p.host)
                == uri_host_of(s@) && opt_view(p.query) == uri_query_of(s@),
            Err(t) => !uri_parses(s@) && t@ == uri_error_text_of(s@),
        },
{
    match s.parse::<http::Uri>() {
        Ok(u) => Ok(UriParts {
            scheme: u.scheme_str().map(|x| x.to_string()),
            host: u.host().map(|x| x.to_string()),
            query: u.query().map(|x| x.to_string()),
        }),
        Err(e) => Err(e.to_string()),
    }
}

} // verus!
