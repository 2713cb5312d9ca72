//! The status a response comes with.

use vstd::pervasive::unreached;
use vstd::prelude::*;

verus! {

/// The line that `reqwest::StatusCode` prints for a code: the number, a
/// space, and the reason phrase the registry gives the code or, for a code
/// without one, a placeholder that says so.
pub uninterp spec fn status_line(code: u16) -> Seq<char>;

/// `reqwest::StatusCode::from_u16` followed by the status code's `Display`.
/// The first accepts exactly the codes from 100 to 999; the second prints the
/// code and its canonical reason phrase, or a placeholder where the code has
/// none: a text that depends on the code alone and is only named here.
#[verifier::external_body]
fn display(code: u16) -> (line: Option<String>)
    ensures
        line is Some <==> 100 <= code <= 999,
        line matches Some(text) ==> text@ == status_line(code),
{
    match reqwest::StatusCode::from_u16(code) {
        Ok(status) => Some(status.to_string()),
        Err(_) => None,
    }
}

/// An HTTP status code: a number from 100 to 999.
#[derive(Debug, Clone, Copy, PartialEq, Eq, Structural)]
pub struct Status {
    code: u16,
}

impl View for Status {
    type V = u16;

    closed spec fn view(&self) -> u16 {
        self.code
    }
}

impl Status {
    /// The code of a successful response.
    pub const OK: u16 = 200;

    #[verifier::type_invariant]
    spec fn in_range(self) -> bool {
        100 <= self.code <= 999
    }

    /// The status with this code, if there is one.
    pub fn new(code: u16) -> (status: Option<Status>)
        ensures
            status is Some <==> 100 <= code <= 999,
            status matches Some(s) ==> s@ == code,
    {
        if 100 <= code && code <= 999 {
            Some(Status { code })
        } else {
            None
        }
    }

    /// The code.
    pub fn code(&self) -> (code: u16)
        ensures
            code == self@,
            100 <= code <= 999,
    {
        proof {
            use_type_invariant(self);
        }
        self.code
    }

    /// Whether the response is the one success there is: 200.
    pub fn is_ok(&self) -> (ok: bool)
        ensures
            ok == (self@ == Status::OK),
    {
        self.code == Status::OK
    }

    /// The status as it is shown to the user, as in `401 Unauthorized`.
    pub fn to_string(&self) -> (line: String)
        ensures
            line@ == status_line(self@),
    {
        proof {
            use_type_invariant(self);
        }
        match display(self.code) {
            Some(line) => line,
            None => unreached(),
        }
    }
}

} // verus!
