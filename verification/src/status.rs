//! The status of an HTTP reply.

use vstd::prelude::*;

verus! {

/// The reason phrase that `reqwest::StatusCode` shows behind a code: the
/// canonical phrase of the code, or `<unknown status code>` where the code has
/// none.
pub uninterp spec fn reason_phrase(code: u16) -> Seq<char>;

/// The character that stands for a decimal digit.
pub open spec fn digit_char(d: u16) -> char {
    if d == 0 {
        '0'
    } else if d == 1 {
        '1'
    } else if d == 2 {
        '2'
    } else if d == 3 {
        '3'
    } else if d == 4 {
        '4'
    } else if d == 5 {
        '5'
    } else if d == 6 {
        '6'
    } else if d == 7 {
        '7'
    } else if d == 8 {
        '8'
    } else {
        '9'
    }
}

/// A number below 1000 in three decimal digits, followed by a space.
pub open spec fn code_digits(code: u16) -> Seq<char> {
    seq![digit_char(code / 100), digit_char((code / 10) % 10), digit_char(code % 10), ' ']
}

/// How a status of three digits is shown: the digits, a space, the reason
/// phrase.
pub open spec fn status_text(code: u16) -> Seq<char> {
    code_digits(code) + reason_phrase(code)
}

/// The codes that announce success: 200 to 299.
pub open spec fn is_success_code(code: u16) -> bool {
    200 <= code < 300
}

/// The codes that a reply can carry: those of three digits.
pub open spec fn is_status_code(code: u16) -> bool {
    100 <= code <= 999
}

/// The status code of a reply, a number of three digits.
#[derive(Clone, Copy, Debug)]
pub struct Status {
    code: u16,
}

impl View for Status {
    type V = u16;

    closed spec fn view(&self) -> u16 {
        self.code
    }
}

/// `Display` of `reqwest::StatusCode`, which is the `http` crate's: it writes
/// the code as a decimal number, a space, and then the code's canonical reason
/// phrase or, where it has none, `<unknown status code>`. The code is turned
/// into a `StatusCode` by `StatusCode::from_u16`, which takes every number
/// from 100 to 999.
#[verifier::external_body]
fn show_status(code: u16) -> (text: String)
    requires
        is_status_code(code),
    ensures
        text@ == code_digits(code) + reason_phrase(code),
{
    match reqwest::StatusCode::from_u16(code) {
        Ok(status) => format!("{}", status),
        Err(refused) => format!("{}", refused),
    }
}

impl Status {
    #[verifier::type_invariant]
    spec fn three_digits(self) -> bool {
        is_status_code(self.code)
    }

    /// The status with this code, where the code has three digits.
    pub fn new(code: u16) -> (status: Option<Status>)
        ensures
            status is Some <==> is_status_code(code),
            status matches Some(s) ==> s@ == code,
    {
        if 100 <= code && code <= 999 {
            Some(Status { code })
        } else {
            None
        }
    }

    /// The code.
    pub fn code(&self) -> (code: u16)
        ensures
            code == self@,
            is_status_code(code),
    {
        proof {
            use_type_invariant(self);
        }
        self.code
    }

    /// Whether the reply announces success.
    pub fn is_success(&self) -> (yes: bool)
        ensures
            yes == is_success_code(self@),
    {
        200 <= self.code && self.code < 300
    }

    /// The status as shown to the user, such as `404 Not Found`.
    pub fn text(&self) -> (text: String)
        ensures
            text@ == status_text(self@),
    {
        proof {
            use_type_invariant(self);
        }
        show_status(self.code)
    }
}

} // verus!
