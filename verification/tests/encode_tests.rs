use graffiti::encode::response;
use graffiti::status::ResponseCode;
use graffiti::text::str_eq;
use graffiti::text::u64_to_string;

#[test]
fn response_success_format() {
    let r = response(ResponseCode::Success, "text/gemini", "hello");
    assert_eq!(r, b"20 text/gemini\r\nhello".to_vec());
}

#[test]
fn response_empty_body() {
    let r = response(ResponseCode::NotFound, "text/gemini", "");
    assert_eq!(r, b"51 text/gemini\r\n".to_vec());
}

#[test]
fn response_code_digits() {
    assert_eq!(response(ResponseCode::MoreInfo, "m", ""), b"10 m\r\n".to_vec());
    assert_eq!(response(ResponseCode::Success, "m", ""), b"20 m\r\n".to_vec());
    assert_eq!(response(ResponseCode::CgiError, "m", ""), b"42 m\r\n".to_vec());
    assert_eq!(response(ResponseCode::NotFound, "m", ""), b"51 m\r\n".to_vec());
}

#[test]
fn response_body_verbatim() {
    let r = response(ResponseCode::Success, "text/gemini", "line1\r\nline2\r\n");
    assert_eq!(r, b"20 text/gemini\r\nline1\r\nline2\r\n".to_vec());
}

#[test]
fn response_round_trip_split() {
    // Splitting an encoded response at the first CRLF recovers status, meta
    // and body, even when the body holds CRLFs of its own.
    let body = "first\r\nsecond";
    let r = response(ResponseCode::Success, "text/gemini", body);
    let pos = r.windows(2).position(|w| w == b"\r\n").unwrap();
    let head = &r[..pos];
    let rest = &r[pos + 2..];
    assert_eq!(head, b"20 text/gemini");
    assert_eq!(&head[..2], b"20");
    assert_eq!(&head[3..], b"text/gemini");
    assert_eq!(rest, body.as_bytes());
}

#[test]
fn u64_rendering() {
    assert_eq!(u64_to_string(0), "0");
    assert_eq!(u64_to_string(7), "7");
    assert_eq!(u64_to_string(10), "10");
    assert_eq!(u64_to_string(42), "42");
    assert_eq!(u64_to_string(100), "100");
    assert_eq!(u64_to_string(90125), "90125");
    assert_eq!(u64_to_string(u64::MAX), "18446744073709551615");
}

#[test]
fn str_eq_cases() {
    assert!(str_eq("", ""));
    assert!(str_eq("/wikipedia", "/wikipedia"));
    assert!(!str_eq("/wikipedia", "/wikipedi"));
    assert!(!str_eq("a", "b"));
    assert!(str_eq("h\u{e9}llo", "h\u{e9}llo"));
    assert!(!str_eq("h\u{e9}llo", "hello"));
}
