//! HTTP status codes as plain values.

use vstd::prelude::*;

verus! {

/// What `http::StatusCode`'s `Display` prints for a code: the number, a space
/// and the canonical reason phrase.
pub uninterp spec fn status_display(code: u16) -> Seq<char>;

/// An HTTP status code; like `http::StatusCode`, always within `100..=999`.
#[derive(Clone, Copy, Debug, PartialEq, Eq)]
pub struct StatusCode {
    code: u16,
}

impl View for StatusCode {
    type V = u16;

    closed spec fn view(&self) -> u16 {
        self.code
    }
}

/// `http::StatusCode::from_u16` followed by its `Display` (http 0.2.12,
/// `src/status.rs`).
#[verifier::external_body]
fn http_status_text(code: u16) -> (text: String)
    requires
        100 <= code <= 999,
    ensures
        text@ == status_display(code),
{
    match http::StatusCode::from_u16(code) {
        Ok(status) => status.to_string(),
        Err(_) => String::new(),
    }
}

impl StatusCode {
    #[verifier::type_invariant]
    spec fn in_range(self) -> bool {
        100 <= self.code <= 999
    }

    /// The status with the given number, if it lies in `100..=999`.
    pub fn from_u16(code: u16) -> (status: Option<StatusCode>)
        ensures
            status is Some <==> 100 <= code <= 999,
            status matches Some(s) ==> s@ == code,
    {
        if 100 <= code && code <= 999 {
            Some(StatusCode { code })
        } else {
            None
        }
    }

    /// The number of the status.
    pub fn as_u16(&self) -> (code: u16)
        ensures
            code == self@,
            100 <= code <= 999,
    {
        proof {
            use_type_invariant(self);
        }
        self.code
    }

    /// `200 OK`.
    pub fn ok() -> (s: StatusCode)
        ensures
            s@ == 200,
    {
        StatusCode { code: 200 }
    }

    /// `401 Unauthorized`.
    pub fn unauthorized() -> (s: StatusCode)
        ensures
            s@ == 401,
    {
        StatusCode { code: 401 }
    }

    /// `403 Forbidden`.
    pub fn forbidden() -> (s: StatusCode)
        ensures
            s@ == 403,
    {
        StatusCode { code: 403 }
    }

    /// `404 Not Found`.
    pub fn not_found() -> (s: StatusCode)
        ensures
            s@ == 404,
    {
        StatusCode { code: 404 }
    }

    /// `500 Internal Server Error`.
    pub fn internal_server_error() -> (s: StatusCode)
        ensures
            s@ == 500,
    {
        StatusCode { code: 500 }
    }

    /// The text that `Display` gives for this status, such as `"404 Not Found"`.
    pub fn to_string(&self) -> (text: String)
        ensures
            text@ == status_display(self@),
    {
        proof {
            use_type_invariant(self);
        }
        http_status_text(self.code)
    }
}

} // verus!
