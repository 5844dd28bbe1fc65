//! The upstream fetcher's pure parts: building the URL of the upstream API
//! call and rendering the fetched page as a protocol document.  The HTTP
//! call itself and the JSON decoding of its payload live outside the
//! library; their outcome comes back in as a `Result`.

use vstd::prelude::*;
use vstd::string::StringExecFns;

use crate::encode::response;
use crate::encode::response_bytes;
use crate::encode::response_chars;
use crate::encode::lemma_code_chars;
use crate::request::url_parse_ok;
use crate::status::ResponseCode;
use crate::text::dec_chars;
use crate::text::u64_to_string;

verus! {

/// What `url::Url::set_query` followed by re-serialization returns for a
/// given base URL and query string.
pub uninterp spec fn with_query_of(base: Seq<char>, query: Seq<char>) -> Seq<char>;

/// Relies on `url::Url::parse`, `Url::set_query` and `Url::as_str`: the
/// serialization of the parsed base URL with its query string replaced, a
/// function of the two arguments alone.
#[verifier::external_body]
fn set_url_query(base: &str, query: &str) -> (r: Option<String>)
    ensures
        r is Some <==> url_parse_ok(base@),
        r matches Some(u) ==> u@ == with_query_of(base@, query@),
{
    match url::Url::parse(base) {
        Ok(mut u) => {
            u.set_query(Some(query));
            Some(u.as_str().to_string())
        },
        Err(_) => None,
    }
}

/// The query parameters of the upstream API call: the fixed `action=parse`
/// parameter set with the page name appended verbatim.
pub open spec fn query_params(page: Seq<char>) -> Seq<char> {
    "action=parse&prop=wikitext&formatversion=2&format=json&page="@ + page
}

pub fn build_query_params(page_name: &str) -> (r: String)
    ensures
        r@ == query_params(page_name@),
{
    let mut r = "action=parse&prop=wikitext&formatversion=2&format=json&page=".to_owned();
    r.append(page_name);
    r
}

/// Builds the URL of the upstream API call for a page: the route's base URL
/// with the fixed parameter set and the page name as its query string.
/// `None` only when the base does not parse as a URL, which never holds of
/// the route table's entries.
pub fn build_fetch_url(page_name: &str, base: &str) -> (r: Option<String>)
    ensures
        r is Some <==> url_parse_ok(base@),
        r matches Some(u) ==> u@ == with_query_of(base@, query_params(page_name@)),
{
    let params = build_query_params(page_name);
    set_url_query(base, params.as_str())
}

/// A page as the upstream structured-query API reports it.
pub struct WikiPage {
    pub title: String,
    pub pageid: usize,
    pub wikitext: String,
}

/// The single opaque error of an upstream fetch: the caller does not
/// distinguish transport failures from malformed payloads.
#[derive(Clone, Copy, PartialEq, Eq, Structural, Debug)]
pub struct FetchError;

/// The document body rendered for a fetched page.
pub open spec fn wiki_body_chars(
    title: Seq<char>,
    pageid: nat,
    host: Seq<char>,
    wikitext: Seq<char>,
) -> Seq<char> {
    "# "@ + title + "\r\nprovided by Graffiti (page id "@ + dec_chars(pageid) + "@"@ + host
        + ")\r\n```\r\n"@ + wikitext + "\r\n```\r\n"@
}

/// Renders the document body for a fetched page.
pub fn render_wiki_body(page: &WikiPage, host: &str) -> (r: String)
    ensures
        r@ == wiki_body_chars(page.title@, page.pageid as nat, host@, page.wikitext@),
{
    let digits = u64_to_string(page.pageid as u64);
    let mut r = "# ".to_owned();
    r.append(page.title.as_str());
    r.append("\r\nprovided by Graffiti (page id ");
    r.append(digits.as_str());
    r.append("@");
    r.append(host);
    r.append(")\r\n```\r\n");
    r.append(page.wikitext.as_str());
    r.append("\r\n```\r\n");
    proof {
        assert(r@ =~= wiki_body_chars(page.title@, page.pageid as nat, host@, page.wikitext@));
    }
    r
}

/// The fixed response for a failed upstream fetch.
pub open spec fn fetch_error_response() -> Seq<u8> {
    response_bytes(
        ResponseCode::CgiError,
        "Failed to create a response :("@,
        Seq::<char>::empty(),
    )
}

/// The response for a successfully fetched page.
pub open spec fn wiki_success_response(
    title: Seq<char>,
    pageid: nat,
    host: Seq<char>,
    wikitext: Seq<char>,
) -> Seq<u8> {
    response_bytes(
        ResponseCode::Success,
        "text/gemini"@,
        wiki_body_chars(title, pageid, host, wikitext),
    )
}

/// Renders the response for the outcome of an upstream fetch: a fetched page
/// becomes a success document, and any failure becomes the one fixed CGI
/// error response, whatever its cause was.
pub fn proxy_result_response(result: Result<&WikiPage, FetchError>, host: &str) -> (r: Vec<u8>)
    ensures
        result matches Ok(page) ==> r@ == wiki_success_response(
            page.title@,
            page.pageid as nat,
            host@,
            page.wikitext@,
        ),
        result is Err ==> r@ == fetch_error_response(),
{
    match result {
        Ok(page) => {
            let body = render_wiki_body(page, host);
            response(ResponseCode::Success, "text/gemini", body.as_str())
        },
        Err(_) => {
            let r = response(ResponseCode::CgiError, "Failed to create a response :(", "");
            proof {
                reveal_strlit("");
                assert(""@ =~= Seq::<char>::empty());
            }
            r
        },
    }
}

/// The fetch-failure response spelled out: exactly the line
/// `42 Failed to create a response :(` and CRLF, with an empty body.
pub proof fn lemma_fetch_error_line()
    ensures
        fetch_error_response() == vstd::utf8::encode_utf8(
            "42 Failed to create a response :(\r\n"@,
        ),
{
    reveal_strlit("42 Failed to create a response :(\r\n");
    reveal_strlit("Failed to create a response :(");
    lemma_code_chars(ResponseCode::CgiError);
    assert(response_chars(
        ResponseCode::CgiError,
        "Failed to create a response :("@,
        Seq::<char>::empty(),
    ) =~= "42 Failed to create a response :(\r\n"@);
}

/// The response for a successfully fetched page begins with the success
/// status line `20 text/gemini` and its body opens with `# <title>` as the
/// first line of the document.
pub proof fn lemma_wiki_success_shape(
    title: Seq<char>,
    pageid: nat,
    host: Seq<char>,
    wikitext: Seq<char>,
)
    ensures
        ({
            let r = response_chars(
                ResponseCode::Success,
                "text/gemini"@,
                wiki_body_chars(title, pageid, host, wikitext),
            );
            &&& r.len() >= 20 + title.len()
            &&& r.subrange(0, 16) == "20 text/gemini\r\n"@
            &&& r.subrange(16, 18) == "# "@
            &&& r.subrange(18, 18 + title.len() as int) == title
            &&& r.subrange(18 + title.len() as int, 20 + title.len() as int) == "\r\n"@
        }),
{
    reveal_strlit("20 text/gemini\r\n");
    reveal_strlit("text/gemini");
    reveal_strlit("# ");
    reveal_strlit("\r\n");
    reveal_strlit("\r\nprovided by Graffiti (page id ");
    lemma_code_chars(ResponseCode::Success);
    let body = wiki_body_chars(title, pageid, host, wikitext);
    let r = response_chars(ResponseCode::Success, "text/gemini"@, body);
    assert(r.subrange(0, 16) =~= "20 text/gemini\r\n"@);
    assert(r.subrange(16, 18) =~= "# "@);
    assert(r.subrange(18, 18 + title.len() as int) =~= title);
    assert(r.subrange(18 + title.len() as int, 20 + title.len() as int) =~= "\r\n"@);
}

} // verus!
