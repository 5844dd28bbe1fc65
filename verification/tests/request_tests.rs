use graffiti::request::parse_request;
use graffiti::request::ParseError;

#[test]
fn parse_path_and_query() {
    let req = parse_request("gemini://example.invalid/wikipedia?Rust").unwrap();
    assert_eq!(req.path, "/wikipedia");
    assert_eq!(req.query.as_deref(), Some("Rust"));
}

#[test]
fn parse_without_query() {
    let req = parse_request("gemini://example.invalid/wikipedia").unwrap();
    assert_eq!(req.path, "/wikipedia");
    assert!(req.query.is_none());
}

#[test]
fn parse_root_path() {
    let req = parse_request("gemini://example.invalid/").unwrap();
    assert_eq!(req.path, "/");
    assert!(req.query.is_none());
}

#[test]
fn parse_empty_path() {
    let req = parse_request("gemini://example.invalid").unwrap();
    assert_eq!(req.path, "");
    assert!(req.query.is_none());
}

#[test]
fn parse_malformed_line() {
    assert_eq!(parse_request("not a url").unwrap_err(), ParseError::Malformed);
}

#[test]
fn parse_relative_reference_is_malformed() {
    assert_eq!(parse_request("/wikipedia?Rust").unwrap_err(), ParseError::Malformed);
}
