//! The connection handler's routing decision: from one request line to
//! either a finished response, an upstream fetch still to perform, or
//! closing the connection with nothing written.

use vstd::prelude::*;

use crate::encode::response;
use crate::encode::response_bytes;
use crate::request::parse_request;
use crate::request::url_parse_ok;
use crate::request::url_path;
use crate::request::url_query;
use crate::routes::lookup;
use crate::routes::route_of;
use crate::status::ResponseCode;
use crate::text::str_eq;

verus! {

/// What the connection handler is to do with a request line.
pub enum Plan {
    /// Write these bytes, then close.
    Respond { bytes: Vec<u8> },
    /// Fetch `page` from the upstream API at `base` (whose host is `host`),
    /// then respond with the outcome of the fetch.
    Fetch { page: String, base: String, host: String },
    /// Close the connection without writing anything.
    Close,
}

/// The root path, `/` or empty, which serves the welcome document.
pub open spec fn is_root(path: Seq<char>) -> bool {
    path == "/"@ || path == ""@
}

/// The response that serves the welcome document.
pub open spec fn welcome_response(welcome: Seq<char>) -> Seq<u8> {
    response_bytes(ResponseCode::Success, "text/gemini"@, welcome)
}

/// The fixed response that asks the client to resend with a page name.
pub open spec fn more_info_response() -> Seq<u8> {
    response_bytes(ResponseCode::MoreInfo, "Page name"@, Seq::<char>::empty())
}

/// The fixed response for a path outside the route table.
pub open spec fn not_found_response() -> Seq<u8> {
    response_bytes(ResponseCode::NotFound, "text/gemini"@, Seq::<char>::empty())
}

/// The fixed responses spelled out: asking for a page name is exactly the
/// line `10 Page name` and CRLF with an empty body, not found is exactly
/// `51 text/gemini` and CRLF with an empty body, and the welcome response
/// is exactly `20 text/gemini`, CRLF, then the welcome document verbatim.
pub proof fn lemma_fixed_response_lines(welcome: Seq<char>)
    ensures
        more_info_response() == vstd::utf8::encode_utf8("10 Page name\r\n"@),
        not_found_response() == vstd::utf8::encode_utf8("51 text/gemini\r\n"@),
        welcome_response(welcome) == vstd::utf8::encode_utf8("20 text/gemini\r\n"@ + welcome),
{
    reveal_strlit("10 Page name\r\n");
    reveal_strlit("51 text/gemini\r\n");
    reveal_strlit("20 text/gemini\r\n");
    reveal_strlit("Page name");
    reveal_strlit("text/gemini");
    crate::encode::lemma_code_chars(ResponseCode::MoreInfo);
    crate::encode::lemma_code_chars(ResponseCode::NotFound);
    crate::encode::lemma_code_chars(ResponseCode::Success);
    assert(crate::encode::response_chars(ResponseCode::MoreInfo, "Page name"@, Seq::<char>::empty())
        =~= "10 Page name\r\n"@);
    assert(crate::encode::response_chars(
        ResponseCode::NotFound,
        "text/gemini"@,
        Seq::<char>::empty(),
    ) =~= "51 text/gemini\r\n"@);
    assert(crate::encode::response_chars(ResponseCode::Success, "text/gemini"@, welcome)
        =~= "20 text/gemini\r\n"@ + welcome);
}

/// Decides what to do with a request line, given the welcome document that
/// the root path serves.  A line that does not parse as an absolute URL
/// closes the connection with nothing written; the root path serves the
/// welcome document; a route table hit without a query asks for a page
/// name, with a query asks for an upstream fetch; any other path is not
/// found.
pub fn plan_request(line: &str, welcome: &str) -> (r: Plan)
    ensures
        !url_parse_ok(line@) ==> r is Close,
        url_parse_ok(line@) ==> {
            let path = url_path(line@);
            &&& is_root(path) ==> (r matches Plan::Respond { bytes } && bytes@
                == welcome_response(welcome@))
            &&& !is_root(path) && route_of(path) is Some && url_query(line@) is None ==> (
            r matches Plan::Respond { bytes } && bytes@ == more_info_response())
            &&& !is_root(path) && route_of(path) is Some && url_query(line@) is Some ==> {
                let rt = route_of(path).unwrap();
                let q = url_query(line@).unwrap();
                r matches Plan::Fetch { page, base, host } && page@ == q && base@ == rt.0 && host@
                    == rt.1
            }
            &&& !is_root(path) && route_of(path) is None ==> (r matches Plan::Respond { bytes }
                && bytes@ == not_found_response())
        },
{
    proof {
        reveal_strlit("");
    }
    match parse_request(line) {
        Err(_) => Plan::Close,
        Ok(req) => {
            if str_eq(req.path.as_str(), "/") || str_eq(req.path.as_str(), "") {
                Plan::Respond { bytes: response(ResponseCode::Success, "text/gemini", welcome) }
            } else {
                match lookup(req.path.as_str()) {
                    Some(rt) => match req.query {
                        Some(q) => Plan::Fetch { page: q, base: rt.base, host: rt.host },
                        None => {
                            let bytes = response(ResponseCode::MoreInfo, "Page name", "");
                            proof {
                                assert(""@ =~= Seq::<char>::empty());
                            }
                            Plan::Respond { bytes }
                        },
                    },
                    None => {
                        let bytes = response(ResponseCode::NotFound, "text/gemini", "");
                        proof {
                            assert(""@ =~= Seq::<char>::empty());
                        }
                        Plan::Respond { bytes }
                    },
                }
            }
        },
    }
}

} // verus!
