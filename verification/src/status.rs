//! HTTP status codes: the success class and the text that names a status.

use vstd::prelude::*;
use crate::text::{decimal_text, push_decimal, str_text_of, text_of};

verus! {

/// Whether an HTTP status code lies in the success class, 200 to 299.
pub open spec fn status_is_success(status: u16) -> bool {
    200 <= status < 300
}

/// Tells whether `status` lies in the success class.
pub fn is_success_status(status: u16) -> (ok: bool)
    ensures
        ok == status_is_success(status),
{
    200 <= status && status < 300
}

/// The reason phrase that `http::StatusCode::canonical_reason` gives for a
/// status code between 100 and 999, where it knows one.
pub uninterp spec fn canonical_reason(status: u16) -> Option<Seq<char>>;

/// Calls `reqwest::StatusCode::from_u16` and, on the code it returns,
/// `canonical_reason`. The contract only names the phrase: it is whatever
/// the table of the `http` crate holds for that code, and `None` where the
/// table has no entry. `from_u16` accepts every code from 100 to 999.
#[verifier::external_body]
fn reason_phrase(status: u16) -> (reason: Option<String>)
    requires
        100 <= status <= 999,
    ensures
        match reason {
            Some(r) => canonical_reason(status) == Some(r@),
            None => canonical_reason(status) is None,
        },
{
    match reqwest::StatusCode::from_u16(status) {
        Ok(code) => code.canonical_reason().map(String::from),
        Err(_) => None,
    }
}

/// The text of the phrase that stands in for a status without a known
/// reason.
pub open spec fn unknown_reason() -> Seq<char> {
    "<unknown status code>"@
}

/// A status written out: the code in decimal, a space, and the reason phrase
/// or, where there is none, a fixed text saying so.
pub open spec fn status_line_with(status: u16, reason: Option<Seq<char>>) -> Seq<char> {
    decimal_text(status as nat) + seq![' '] + match reason {
        Some(r) => r,
        None => unknown_reason(),
    }
}

/// The reason phrase of `status`; codes outside 100 to 999 have none.
pub open spec fn reason_of(status: u16) -> Option<Seq<char>> {
    if 100 <= status <= 999 {
        canonical_reason(status)
    } else {
        None
    }
}

/// `status` written out with its own reason phrase.
pub open spec fn status_line(status: u16) -> Seq<char> {
    status_line_with(status, reason_of(status))
}

/// Writes out `status` with the reason phrase given.
pub fn format_status_line(status: u16, reason: Option<&str>) -> (line: String)
    ensures
        line@ == status_line_with(status, str_text_of(reason)),
{
    let mut line = String::new();
    push_decimal(&mut line, status as u64);
    line.push(' ');
    match reason {
        Some(r) => line.append(r),
        None => line.append("<unknown status code>"),
    }
    assert(Seq::<char>::empty() + decimal_text(status as nat) == decimal_text(status as nat));
    line
}

/// The reason phrase of `status`, if it has one.
pub fn status_reason(status: u16) -> (reason: Option<String>)
    ensures
        text_of(reason) == reason_of(status),
{
    if 100 <= status && status <= 999 {
        reason_phrase(status)
    } else {
        None
    }
}

/// Writes out `status` with its own reason phrase.
pub fn status_line_of(status: u16) -> (line: String)
    ensures
        line@ == status_line(status),
{
    match status_reason(status) {
        Some(r) => format_status_line(status, Some(r.as_str())),
        None => format_status_line(status, None),
    }
}

} // verus!
