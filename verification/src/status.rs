//! Status codes of the protocol's response line.

use vstd::prelude::*;

verus! {

/// The four response status codes the server uses: `10` asks the client to
/// resend the request with a query string, `20` is success with a body,
/// `42` is a CGI-style error, `51` is not found.
#[derive(Clone, Copy, PartialEq, Eq, Structural, Debug)]
pub enum ResponseCode {
    MoreInfo,
    Success,
    CgiError,
    NotFound,
}

impl ResponseCode {
    /// The two-digit decimal value of the code on the wire.
    pub open spec fn spec_code(self) -> u8 {
        match self {
            ResponseCode::MoreInfo => 10,
            ResponseCode::Success => 20,
            ResponseCode::CgiError => 42,
            ResponseCode::NotFound => 51,
        }
    }

    #[verifier::when_used_as_spec(spec_code)]
    pub fn code(self) -> (c: u8)
        ensures
            c == self.spec_code(),
    {
        match self {
            ResponseCode::MoreInfo => 10,
            ResponseCode::Success => 20,
            ResponseCode::CgiError => 42,
            ResponseCode::NotFound => 51,
        }
    }
}

} // verus!
