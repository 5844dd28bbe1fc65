use graffiti::fetch::build_fetch_url;
use graffiti::fetch::proxy_result_response;
use graffiti::fetch::FetchError;
use graffiti::fetch::WikiPage;
use graffiti::handler::plan_request;
use graffiti::handler::Plan;

const WELCOME: &str = "# Welcome\r\nThis is the welcome document.\r\n";

fn respond_bytes(plan: Plan) -> Vec<u8> {
    match plan {
        Plan::Respond { bytes } => bytes,
        _ => panic!("expected a finished response"),
    }
}

#[test]
fn route_without_query_asks_for_page_name() {
    for path in ["/wikipedia", "/nethack", "/xkcd"] {
        let line = format!("gemini://example.invalid{}", path);
        let bytes = respond_bytes(plan_request(&line, WELCOME));
        assert_eq!(bytes, b"10 Page name\r\n".to_vec());
    }
}

#[test]
fn unknown_path_is_not_found() {
    for line in [
        "gemini://example.invalid/missing",
        "gemini://example.invalid/wikipedia/extra",
        "gemini://example.invalid/Wikipedia",
    ] {
        let bytes = respond_bytes(plan_request(line, WELCOME));
        assert_eq!(bytes, b"51 text/gemini\r\n".to_vec());
    }
}

#[test]
fn root_serves_welcome_document() {
    let bytes = respond_bytes(plan_request("gemini://example.invalid/", WELCOME));
    let mut expected = b"20 text/gemini\r\n".to_vec();
    expected.extend_from_slice(WELCOME.as_bytes());
    assert_eq!(bytes, expected);
}

#[test]
fn empty_path_serves_welcome_document() {
    let bytes = respond_bytes(plan_request("gemini://example.invalid", WELCOME));
    let mut expected = b"20 text/gemini\r\n".to_vec();
    expected.extend_from_slice(WELCOME.as_bytes());
    assert_eq!(bytes, expected);
}

#[test]
fn malformed_line_closes_without_response() {
    assert!(matches!(plan_request("not a url", WELCOME), Plan::Close));
}

#[test]
fn fetch_error_is_one_fixed_response() {
    let bytes = proxy_result_response(Err(FetchError), "en.wikipedia.org");
    assert_eq!(bytes, b"42 Failed to create a response :(\r\n".to_vec());
}

#[test]
fn wikipedia_fetch_end_to_end() {
    // The request line routes to the Wikipedia upstream with the query as
    // the page name.
    let plan = plan_request("gemini://example.invalid/wikipedia?Rust", WELCOME);
    let (page, base, host) = match plan {
        Plan::Fetch { page, base, host } => (page, base, host),
        _ => panic!("expected an upstream fetch"),
    };
    assert_eq!(page, "Rust");
    assert_eq!(base, "https://en.wikipedia.org/w/api.php");
    assert_eq!(host, "en.wikipedia.org");

    // The fetch URL is the base with the full parameter set appended.
    let url = build_fetch_url(&page, &base).unwrap();
    assert_eq!(
        url,
        "https://en.wikipedia.org/w/api.php?action=parse&prop=wikitext&formatversion=2&format=json&page=Rust"
    );

    // An upstream payload {"parse":{"title":"Rust","pageid":42,"wikitext":"hello"}}
    // renders as the exact success document.
    let fetched = WikiPage { title: "Rust".to_owned(), pageid: 42, wikitext: "hello".to_owned() };
    let bytes = proxy_result_response(Ok(&fetched), &host);
    let expected = "20 text/gemini\r\n# Rust\r\nprovided by Graffiti (page id 42@en.wikipedia.org)\r\n```\r\nhello\r\n```\r\n";
    assert_eq!(bytes, expected.as_bytes().to_vec());
}

#[test]
fn fetch_url_changes_the_base() {
    let url = build_fetch_url("Rodney", "https://nethackwiki.com/w/api.php").unwrap();
    assert_ne!(url, "https://nethackwiki.com/w/api.php");
    assert_eq!(
        url,
        "https://nethackwiki.com/w/api.php?action=parse&prop=wikitext&formatversion=2&format=json&page=Rodney"
    );
}

#[test]
fn fetch_url_of_unparsable_base_is_absent() {
    assert!(build_fetch_url("Rust", "not a url").is_none());
}
