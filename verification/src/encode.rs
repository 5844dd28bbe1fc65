//! The response encoder: renders a (status, meta, body) triple into the
//! protocol's wire format `<code> <meta>\r\n<body>`.

use vstd::prelude::*;
use vstd::string::StrSliceExecFns;
use vstd::string::StringExecFns;
use vstd::utf8::encode_utf8;

use crate::status::ResponseCode;
use crate::text::contains_crlf;
use crate::text::dec_chars;
use crate::text::first_crlf;
use crate::text::is_crlf_at;
use crate::text::is_digit;
use crate::text::lemma_dec_chars_digits;
use crate::text::lemma_first_crlf_at;
use crate::text::u64_to_string;

verus! {

/// The characters of an encoded response: the decimal status code, a space,
/// the meta string, CRLF, then the body verbatim.
pub open spec fn response_chars(status: ResponseCode, meta: Seq<char>, body: Seq<char>) -> Seq<
    char,
> {
    dec_chars(status.spec_code() as nat) + seq![' '] + meta + seq!['\r', '\n'] + body
}

/// The bytes of an encoded response: the UTF-8 encoding of its characters.
pub open spec fn response_bytes(status: ResponseCode, meta: Seq<char>, body: Seq<char>) -> Seq<
    u8,
> {
    encode_utf8(response_chars(status, meta, body))
}

/// Renders a response in the wire format.  `response_type` is the meta field
/// and must be a single line; `body` is appended verbatim with no trailing
/// terminator of its own.
pub fn response(status: ResponseCode, response_type: &str, body: &str) -> (r: Vec<u8>)
    ensures
        r@ == response_bytes(status, response_type@, body@),
{
    let mut s = u64_to_string(status.code() as u64);
    s.append(" ");
    s.append(response_type);
    s.append("\r\n");
    s.append(body);
    proof {
        reveal_strlit(" ");
        reveal_strlit("\r\n");
        assert(s@ =~= response_chars(status, response_type@, body@));
    }
    let r = s.as_str().as_bytes_vec();
    r
}

/// The two decimal digit characters of each status code.
pub open spec fn code_chars(status: ResponseCode) -> Seq<char> {
    match status {
        ResponseCode::MoreInfo => seq!['1', '0'],
        ResponseCode::Success => seq!['2', '0'],
        ResponseCode::CgiError => seq!['4', '2'],
        ResponseCode::NotFound => seq!['5', '1'],
    }
}

/// Every status code renders as its two digit characters.
pub proof fn lemma_code_chars(status: ResponseCode)
    ensures
        dec_chars(status.spec_code() as nat) == code_chars(status),
{
    reveal_with_fuel(dec_chars, 3);
    match status {
        ResponseCode::MoreInfo => {
            assert(dec_chars(10) =~= seq!['1', '0']);
        },
        ResponseCode::Success => {
            assert(dec_chars(20) =~= seq!['2', '0']);
        },
        ResponseCode::CgiError => {
            assert(dec_chars(42) =~= seq!['4', '2']);
        },
        ResponseCode::NotFound => {
            assert(dec_chars(51) =~= seq!['5', '1']);
        },
    }
}

/// For a response whose meta and body are ASCII, the wire bytes are the
/// response's characters themselves, one byte per character.
pub proof fn lemma_response_bytes_ascii(status: ResponseCode, meta: Seq<char>, body: Seq<char>)
    requires
        vstd::utf8::is_ascii_chars(meta),
        vstd::utf8::is_ascii_chars(body),
    ensures
        ({
            let cs = response_chars(status, meta, body);
            let bs = response_bytes(status, meta, body);
            &&& bs.len() == cs.len()
            &&& forall|i: int| 0 <= i < cs.len() ==> bs[i] == (#[trigger] cs[i]) as u8
        }),
{
    lemma_dec_chars_digits(status.spec_code() as nat);
    let d = dec_chars(status.spec_code() as nat);
    let cs = response_chars(status, meta, body);
    assert(vstd::utf8::is_ascii_chars(cs)) by {
        assert forall|i: int| 0 <= i < cs.len() implies '\0' <= #[trigger] cs[i] <= '\u{7f}' by {
            let n = d.len() as int;
            let m = meta.len() as int;
            if i < n {
                assert(is_digit(cs[i]));
            } else if i == n {
                assert(cs[i] == ' ');
            } else if i < n + 1 + m {
                assert(cs[i] == meta[i - n - 1]);
            } else if i == n + 1 + m {
                assert(cs[i] == '\r');
            } else if i == n + 2 + m {
                assert(cs[i] == '\n');
            } else {
                assert(cs[i] == body[i - n - 3 - m]);
            }
        }
    }
    vstd::utf8::is_ascii_chars_encode_utf8(cs);
}

/// Round trip across the framing: splitting an encoded response at its first
/// CRLF recovers the status digits and the meta string exactly, and
/// everything after that CRLF is the body, unchanged.
pub proof fn lemma_response_round_trip(status: ResponseCode, meta: Seq<char>, body: Seq<char>)
    requires
        !contains_crlf(meta),
    ensures
        ({
            let r = response_chars(status, meta, body);
            let m = meta.len() as int;
            &&& r.len() == 5 + m + body.len()
            &&& first_crlf(r) == Some(3 + m)
            &&& r.subrange(0, 2) == code_chars(status)
            &&& r[2] == ' '
            &&& r.subrange(3, 3 + m) == meta
            &&& r.subrange(3 + m, 5 + m) == seq!['\r', '\n']
            &&& r.subrange(5 + m, r.len() as int) == body
        }),
{
    let d = dec_chars(status.spec_code() as nat);
    lemma_code_chars(status);
    lemma_dec_chars_digits(status.spec_code() as nat);
    let r = response_chars(status, meta, body);
    let m = meta.len() as int;
    assert(d.len() == 2);
    assert(r.len() == 5 + m + body.len());
    assert forall|j: int| 0 <= j < 2 implies r[j] == d[j] by {}
    assert(r[2] == ' ');
    assert forall|j: int| 3 <= j < 3 + m implies r[j] == meta[j - 3] by {}
    assert(r[3 + m] == '\r');
    assert(r[4 + m] == '\n');
    assert forall|j: int| 5 + m <= j < r.len() implies r[j] == body[j - 5 - m] by {}
    assert(is_crlf_at(r, 3 + m));
    assert forall|j: int| 0 <= j < 3 + m implies !is_crlf_at(r, j) by {
        if j < 2 {
            assert(is_digit(d[j]));
            assert(r[j] != '\r');
        } else if j == 2 {
            assert(r[j] == ' ');
        } else {
            // j points into meta
            if j + 1 < 3 + m {
                if r[j] == '\r' && r[j + 1] == '\n' {
                    assert(is_crlf_at(meta, j - 3));
                    assert(contains_crlf(meta));
                }
            } else {
                // j + 1 == 3 + m: the following character is the '\r' of the frame
                assert(r[j + 1] == '\r');
            }
        }
    }
    lemma_first_crlf_at(r, 3 + m);
    assert(r.subrange(0, 2) =~= code_chars(status));
    assert(r.subrange(3, 3 + m) =~= meta);
    assert(r.subrange(3 + m, 5 + m) =~= seq!['\r', '\n']);
    assert(r.subrange(5 + m, r.len() as int) =~= body);
}

} // verus!
