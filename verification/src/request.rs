//! The request parser: the single request line, parsed as an absolute URL
//! and reduced to its path and raw query string.

use vstd::prelude::*;

verus! {

/// Whether the line parses as an absolute URL.
pub uninterp spec fn url_parse_ok(line: Seq<char>) -> bool;

/// The path of the URL parsed from the line.
pub uninterp spec fn url_path(line: Seq<char>) -> Seq<char>;

/// The raw query string of the URL parsed from the line, if it has one.
pub uninterp spec fn url_query(line: Seq<char>) -> Option<Seq<char>>;

/// A parsed request: the path and the raw query string of the request URL.
/// The query is not key/value-decoded; it is one opaque page-name token.
#[derive(Debug)]
pub struct Request {
    pub path: String,
    pub query: Option<String>,
}

/// Rejection of a request line that does not parse as an absolute URL.
#[derive(Clone, Copy, PartialEq, Eq, Structural, Debug)]
pub enum ParseError {
    Malformed,
}

/// Relies on `url::Url::parse`, `Url::path` and `Url::query`: parsing
/// succeeds or fails as a function of the line alone, and `path` and `query`
/// return the path part and the raw query string of the parsed URL.
#[verifier::external_body]
fn parse_url_parts(line: &str) -> (r: Option<Request>)
    ensures
        r is Some <==> url_parse_ok(line@),
        r matches Some(req) ==> {
            &&& req.path@ == url_path(line@)
            &&& (req.query is Some <==> url_query(line@) is Some)
            &&& (req.query matches Some(q) ==> url_query(line@) == Some(q@))
        },
{
    match url::Url::parse(line) {
        Ok(u) => {
            let query = match u.query() {
                Some(q) => Some(q.to_string()),
                None => None,
            };
            Some(Request { path: u.path().to_string(), query })
        },
        Err(_) => None,
    }
}

/// Parses the request line as an absolute URL and extracts its path and raw
/// query string; a line that does not parse is rejected as `Malformed`.
pub fn parse_request(line: &str) -> (r: Result<Request, ParseError>)
    ensures
        r is Ok <==> url_parse_ok(line@),
        r matches Ok(req) ==> {
            &&& req.path@ == url_path(line@)
            &&& (req.query is Some <==> url_query(line@) is Some)
            &&& (req.query matches Some(q) ==> url_query(line@) == Some(q@))
        },
        r is Err ==> r == Result::<Request, ParseError>::Err(ParseError::Malformed),
{
    match parse_url_parts(line) {
        Some(req) => Ok(req),
        None => Err(ParseError::Malformed),
    }
}

} // verus!
