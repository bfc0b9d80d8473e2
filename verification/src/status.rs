//! The HTTP statuses with which the gateway answers.

use vstd::prelude::*;

verus! {

/// An HTTP status the gateway answers with.
#[derive(Debug, Clone, Copy, PartialEq, Eq, Structural)]
pub enum DynMCPHttpStatus {
    Success,
    BadRequest,
    Unauthorized,
    NotFound,
    InternalServerError,
}

impl DynMCPHttpStatus {
    /// The status code.
    pub open spec fn code(self) -> u16 {
        match self {
            DynMCPHttpStatus::Success => 200,
            DynMCPHttpStatus::BadRequest => 400,
            DynMCPHttpStatus::Unauthorized => 401,
            DynMCPHttpStatus::NotFound => 404,
            DynMCPHttpStatus::InternalServerError => 500,
        }
    }

    /// The status line: the code and its reason phrase.
    pub open spec fn line(self) -> Seq<char> {
        match self {
            DynMCPHttpStatus::Success => "200 OK"@,
            DynMCPHttpStatus::BadRequest => "400 Bad Request"@,
            DynMCPHttpStatus::Unauthorized => "401 Unauthorized"@,
            DynMCPHttpStatus::NotFound => "404 Not Found"@,
            DynMCPHttpStatus::InternalServerError => "500 Internal Server Error"@,
        }
    }

    pub fn as_u16(self) -> (r: u16)
        ensures
            r == self.code(),
    {
        match self {
            DynMCPHttpStatus::Success => 200,
            DynMCPHttpStatus::BadRequest => 400,
            DynMCPHttpStatus::Unauthorized => 401,
            DynMCPHttpStatus::NotFound => 404,
            DynMCPHttpStatus::InternalServerError => 500,
        }
    }

    pub fn as_str(self) -> (r: &'static str)
        ensures
            r@ == self.line(),
    {
        match self {
            DynMCPHttpStatus::Success => "200 OK",
            DynMCPHttpStatus::BadRequest => "400 Bad Request",
            DynMCPHttpStatus::Unauthorized => "401 Unauthorized",
            DynMCPHttpStatus::NotFound => "404 Not Found",
            DynMCPHttpStatus::InternalServerError => "500 Internal Server Error",
        }
    }
}

/// Whether a status code is in the 2xx range.
pub open spec fn is_success(code: u16) -> bool {
    200 <= code < 300
}

/// Whether a status code is in the 2xx range.
pub fn status_is_success(code: u16) -> (r: bool)
    ensures
        r == is_success(code),
{
    200 <= code && code < 300
}

} // verus!
