//! HTTP response statuses.
use vstd::prelude::*;

use crate::text::decimal_spec;

verus! {

/// The reason phrase that the HTTP library registers for a status code, if any.
pub uninterp spec fn canonical_reason_of(code: u16) -> Option<Seq<char>>;

/// Whether `code` is a status the HTTP library can hold.
pub open spec fn valid_status(code: u16) -> bool {
    100 <= code < 600
}

/// Whether `code` reports success (2xx).
pub open spec fn is_success_spec(code: u16) -> bool {
    200 <= code < 300
}

/// The status line as the HTTP library displays it: the code, a space, and
/// the reason phrase (or a fixed placeholder for an unregistered code).
pub open spec fn status_line_spec(code: u16) -> Seq<char> {
    decimal_spec(code as nat) + " "@ + reason_text(canonical_reason_of(code))
}

/// A reason phrase, or the placeholder shown where there is none.
pub open spec fn reason_text(reason: Option<Seq<char>>) -> Seq<char> {
    match reason {
        Some(p) => p,
        None => "<unknown status code>"@,
    }
}

/// Relies on `StatusCode` (http's type, re-exported by reqwest):
/// `StatusCode::from_u16`, which accepts 100 to 599, and the
/// `Display` of `StatusCode`, which writes the code, a space, and
/// `canonical_reason()` or `<unknown status code>`.
#[verifier::external_body]
fn status_display(code: u16) -> (r: String)
    requires
        valid_status(code),
    ensures
        r@ == decimal_spec(code as nat) + " "@ + reason_text(canonical_reason_of(code)),
{
    match reqwest::StatusCode::from_u16(code) {
        Ok(status) => status.to_string(),
        Err(_) => String::new(),
    }
}

/// Whether `code` reports success (2xx).
pub fn is_success(code: u16) -> (r: bool)
    ensures
        r == is_success_spec(code),
{
    200 <= code && code < 300
}

/// The status line of `code`, such as `404 Not Found`.
pub fn status_line(code: u16) -> (r: String)
    requires
        valid_status(code),
    ensures
        r@ == status_line_spec(code),
{
    status_display(code)
}

} // verus!
