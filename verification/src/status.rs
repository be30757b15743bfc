//! HTTP status codes.

use vstd::prelude::*;

verus! {

/// Whether `code` is a number that an HTTP status line can carry.
pub open spec fn is_status_code(code: int) -> bool {
    100 <= code <= 999
}

/// An HTTP status code. Its number always lies between 100 and 999.
#[derive(Clone, Copy, Debug, PartialEq, Eq, Structural)]
pub struct StatusCode {
    code: u16,
}

impl View for StatusCode {
    type V = int;

    closed spec fn view(&self) -> int {
        self.code as int
    }
}

impl StatusCode {
    #[verifier::type_invariant]
    spec fn inv(self) -> bool {
        is_status_code(self.code as int)
    }

    /// The status code with number `code`, if there is one.
    pub fn from_u16(code: u16) -> (r: Option<StatusCode>)
        ensures
            r is Some <==> is_status_code(code as int),
            r matches Some(s) ==> s@ == code,
    {
        if 100 <= code && code <= 999 {
            Some(StatusCode { code })
        } else {
            None
        }
    }

    /// The number of this status code.
    pub fn as_u16(&self) -> (r: u16)
        ensures
            r as int == self@,
            is_status_code(r as int),
    {
        proof {
            use_type_invariant(self);
        }
        self.code
    }

    /// 200 OK
    pub fn ok() -> (r: StatusCode)
        ensures
            r@ == 200,
    {
        StatusCode { code: 200 }
    }

    /// 302 Found
    pub fn found() -> (r: StatusCode)
        ensures
            r@ == 302,
    {
        StatusCode { code: 302 }
    }

    /// 303 See Other
    pub fn see_other() -> (r: StatusCode)
        ensures
            r@ == 303,
    {
        StatusCode { code: 303 }
    }

    /// 400 Bad Request
    pub fn bad_request() -> (r: StatusCode)
        ensures
            r@ == 400,
    {
        StatusCode { code: 400 }
    }

    /// 500 Internal Server Error
    pub fn internal_server_error() -> (r: StatusCode)
        ensures
            r@ == 500,
    {
        StatusCode { code: 500 }
    }
}

} // verus!
