//! Character-level helpers: decimal rendering of integers, string equality,
//! and locating the first CRLF pair of a character sequence.

use vstd::prelude::*;
use vstd::string::StrSliceExecFns;
use vstd::string::StringExecFns;

verus! {

/// The decimal digit character for a value below ten.
pub open spec fn digit_char(d: nat) -> char
    recommends
        d < 10,
{
    if d == 0 {
        '0'
    } else if d == 1 {
        '1'
    } else if d == 2 {
        '2'
    } else if d == 3 {
        '3'
    } else if d == 4 {
        '4'
    } else if d == 5 {
        '5'
    } else if d == 6 {
        '6'
    } else if d == 7 {
        '7'
    } else if d == 8 {
        '8'
    } else {
        '9'
    }
}

pub open spec fn is_digit(c: char) -> bool {
    c == '0' || c == '1' || c == '2' || c == '3' || c == '4' || c == '5' || c == '6' || c == '7'
        || c == '8' || c == '9'
}

/// The characters of `n` written in decimal, most significant digit first,
/// with no leading zeros (a single `'0'` for zero).
pub open spec fn dec_chars(n: nat) -> Seq<char>
    decreases n,
{
    if n < 10 {
        seq![digit_char(n)]
    } else {
        dec_chars(n / 10).push(digit_char(n % 10))
    }
}

/// Every character of a decimal rendering is a digit, and there is at least one.
pub proof fn lemma_dec_chars_digits(n: nat)
    ensures
        dec_chars(n).len() >= 1,
        forall|i: int| 0 <= i < dec_chars(n).len() ==> is_digit(#[trigger] dec_chars(n)[i]),
    decreases n,
{
    if n >= 10 {
        lemma_dec_chars_digits(n / 10);
    }
}

/// The one-character string slice for a decimal digit value.
fn digit_str(d: u8) -> (r: &'static str)
    requires
        d < 10,
    ensures
        r@ == seq![digit_char(d as nat)],
{
    proof {
        reveal_strlit("0");
        reveal_strlit("1");
        reveal_strlit("2");
        reveal_strlit("3");
        reveal_strlit("4");
        reveal_strlit("5");
        reveal_strlit("6");
        reveal_strlit("7");
        reveal_strlit("8");
        reveal_strlit("9");
    }
    let r: &'static str = match d {
        0 => "0",
        1 => "1",
        2 => "2",
        3 => "3",
        4 => "4",
        5 => "5",
        6 => "6",
        7 => "7",
        8 => "8",
        _ => "9",
    };
    proof {
        assert(r@ =~= seq![digit_char(d as nat)]);
    }
    r
}

/// Renders `n` in decimal.
pub fn u64_to_string(n: u64) -> (r: String)
    ensures
        r@ == dec_chars(n as nat),
    decreases n,
{
    if n < 10 {
        let r = digit_str(n as u8).to_owned();
        r
    } else {
        let mut r = u64_to_string(n / 10);
        r.append(digit_str((n % 10) as u8));
        proof {
            assert(r@ =~= dec_chars(n as nat));
        }
        r
    }
}

/// Character-for-character string comparison.
pub fn str_eq(a: &str, b: &str) -> (r: bool)
    ensures
        r == (a@ == b@),
{
    let alen = a.unicode_len();
    let blen = b.unicode_len();
    if alen != blen {
        return false;
    }
    let mut i: usize = 0;
    while i < alen
        invariant
            alen == a@.len(),
            blen == b@.len(),
            alen == blen,
            i <= alen,
            forall|j: int| 0 <= j < i ==> a@[j] == b@[j],
        decreases alen - i,
    {
        if a.get_char(i) != b.get_char(i) {
            return false;
        }
        i += 1;
    }
    proof {
        assert(a@ =~= b@);
    }
    true
}

/// There is a `'\r'` at `i` immediately followed by a `'\n'`.
pub open spec fn is_crlf_at(s: Seq<char>, i: int) -> bool {
    0 <= i && i + 1 < s.len() && s[i] == '\r' && s[i + 1] == '\n'
}

pub open spec fn contains_crlf(s: Seq<char>) -> bool {
    exists|i: int| is_crlf_at(s, i)
}

/// The index of the first CRLF pair of `s`, if any.
pub open spec fn first_crlf(s: Seq<char>) -> Option<int>
    decreases s.len(),
{
    if s.len() < 2 {
        None
    } else if s[0] == '\r' && s[1] == '\n' {
        Some(0int)
    } else {
        match first_crlf(s.drop_first()) {
            Some(i) => Some(i + 1),
            None => None,
        }
    }
}

/// A CRLF pair at `k` with none before it is the first one.
pub proof fn lemma_first_crlf_at(s: Seq<char>, k: int)
    requires
        is_crlf_at(s, k),
        forall|j: int| 0 <= j < k ==> !is_crlf_at(s, j),
    ensures
        first_crlf(s) == Some(k),
    decreases s.len(),
{
    if k == 0 {
    } else {
        assert(!is_crlf_at(s, 0));
        let t = s.drop_first();
        assert(is_crlf_at(t, k - 1)) by {
            assert(t[k - 1] == s[k]);
            assert(t[k] == s[k + 1]);
        }
        assert forall|j: int| 0 <= j < k - 1 implies !is_crlf_at(t, j) by {
            assert(t[j] == s[j + 1]);
            if j + 1 < t.len() {
                assert(t[j + 1] == s[j + 2]);
            }
            assert(!is_crlf_at(s, j + 1));
        }
        lemma_first_crlf_at(t, k - 1);
    }
}

} // verus!
