use vstd::prelude::*;

verus! {

/// The HTTP method of a scan request. The adapter only ever issues GET.
#[derive(Debug, Clone, Copy, PartialEq, Eq, Structural)]
pub enum HttpMethod {
    Get,
}

/// The one request a scan issues, as plain values: the caller performs it
/// over whatever transport it has and hands the response body back to
/// [`crate::Adapter::begin_scan`].
#[derive(Debug)]
pub struct HttpRequest {
    pub method: HttpMethod,
    pub url: String,
    pub headers: Vec<(String, String)>,
    pub body: String,
}

/// What parsing a URL string returns: the normalized serialization of the
/// URL for a string that parses as an absolute URL, the parser's diagnostic
/// otherwise. The result depends on the input text alone.
pub uninterp spec fn url_parse_of(s: Seq<char>) -> Result<Seq<char>, Seq<char>>;

/// What joining a relative path onto a base URL string returns: the
/// normalized serialization of the combined URL, or nothing when the base
/// does not parse or cannot serve as a base. The result depends on the two
/// texts alone.
pub uninterp spec fn url_join_of(base: Seq<char>, path: Seq<char>) -> Option<Seq<char>>;

/// Relies on url::Url::parse, which succeeds exactly on absolute URL
/// strings, and on Url's serialization: both, and the parser's diagnostic,
/// depend on the input text alone.
#[verifier::external_body]
pub(crate) fn parse_url(s: &str) -> (r: Result<String, String>)
    ensures
        (r is Ok) == (url_parse_of(s@) is Ok),
        r matches Ok(u) ==> (url_parse_of(s@) matches Ok(n) && u@ == n),
        r matches Err(e) ==> (url_parse_of(s@) matches Err(m) && e@ == m),
{
    match url::Url::parse(s) {
        Ok(u) => Ok(u.to_string()),
        Err(e) => Err(e.to_string()),
    }
}

/// Relies on url::Url::parse and url::Url::join: resolving a path against
/// a base URL and serializing the result depend on the two texts alone.
#[verifier::external_body]
pub(crate) fn join_url(base: &str, path: &str) -> (r: Option<String>)
    ensures
        (r is Some) == (url_join_of(base@, path@) is Some),
        r matches Some(u) ==> (url_join_of(base@, path@) matches Some(n) && u@ == n),
{
    match url::Url::parse(base) {
        Ok(b) => match b.join(path) {
            Ok(u) => Some(u.to_string()),
            Err(_) => None,
        },
        Err(_) => None,
    }
}

} // verus!
