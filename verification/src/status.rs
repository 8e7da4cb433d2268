//! The status code of an HTTP response.

use vstd::prelude::*;

verus! {

/// The character of a decimal digit.
pub open spec fn digit_char(digit: int) -> char {
    ((48 + digit) as u8) as char
}

/// The three decimal digits of a status code, most significant first.
pub open spec fn code_digits(code: u16) -> Seq<char> {
    seq![
        digit_char(code as int / 100),
        digit_char((code as int / 10) % 10),
        digit_char(code as int % 10),
    ]
}

/// Whether a code lies in the range that HTTP allows for a status.
pub open spec fn is_status_code(code: u16) -> bool {
    100 <= code <= 999
}

/// Whether a code reports success: the 2xx range.
pub open spec fn is_success_code(code: u16) -> bool {
    200 <= code <= 299
}

/// The reason phrase that `http` prints for a code: the phrase that its
/// table has for the code, or its stand-in where the table has none.
pub uninterp spec fn reason_phrase(code: u16) -> Seq<char>;

/// A status as text: the code's three digits, a space, and the reason
/// phrase.
pub open spec fn status_text(code: u16) -> Seq<char> {
    code_digits(code) + seq![' '] + reason_phrase(code)
}

/// `reqwest::StatusCode::from_u16` and the `Display` of the status it gives.
/// `from_u16` accepts the codes from 100 to 999 and no others. `Display`
/// writes the code in decimal, which for these codes is three digits, then a
/// space, then the reason phrase.
#[verifier::external_body]
fn status_line(code: u16) -> (line: Option<String>)
    ensures
        line is Some <==> is_status_code(code),
        line matches Some(text) ==> text@ == code_digits(code) + seq![' '] + reason_phrase(code),
{
    match reqwest::StatusCode::from_u16(code) {
        Ok(status) => Some(status.to_string()),
        Err(_) => None,
    }
}

/// A status code that an HTTP response can carry.
#[derive(Debug, Clone, Copy)]
pub struct HttpStatus {
    code: u16,
}

impl HttpStatus {
    #[verifier::type_invariant]
    spec fn in_range(self) -> bool {
        is_status_code(self.code)
    }

    /// The numeric code.
    pub closed spec fn code(self) -> u16 {
        self.code
    }

    /// The status for `code`, if HTTP allows the code.
    pub fn from_u16(code: u16) -> (status: Option<HttpStatus>)
        ensures
            status is Some <==> is_status_code(code),
            status matches Some(accepted) ==> accepted.code() == code,
    {
        if 100 <= code && code <= 999 {
            Some(HttpStatus { code })
        } else {
            None
        }
    }

    /// The numeric code, always in HTTP's range.
    pub fn as_u16(&self) -> (code: u16)
        ensures
            code == self.code(),
            is_status_code(code),
    {
        proof {
            use_type_invariant(self);
        }
        self.code
    }

    /// Whether the status reports success.
    pub fn is_success(&self) -> (yes: bool)
        ensures
            yes == is_success_code(self.code()),
    {
        200 <= self.code && self.code <= 299
    }

    /// The status as text: the code's three digits, a space, and the reason
    /// phrase.
    pub fn text(&self) -> (line: String)
        ensures
            line@ == status_text(self.code()),
    {
        proof {
            use_type_invariant(self);
        }
        match status_line(self.code) {
            Some(line) => line,
            None => String::new(),
        }
    }
}

} // verus!
