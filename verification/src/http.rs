//! HTTP status codes.
#[allow(unused_imports)]
use crate::text::decimal;
use crate::text::joined;
use vstd::prelude::*;

verus! {

/// `code` is a status code.
pub open spec fn is_status(code: u16) -> bool {
    100 <= code <= 999
}

/// The status code reports success.
pub open spec fn success_status(code: u16) -> bool {
    200 <= code < 300
}

/// Whether the status code reports success.
pub fn is_success(code: u16) -> (success: bool)
    ensures
        success == success_status(code),
{
    200 <= code && code < 300
}

/// The reason phrase that `reqwest::StatusCode` displays with a code.
pub uninterp spec fn status_reason(code: u16) -> Seq<char>;

/// A status code as it is displayed.
pub open spec fn status_display(code: u16) -> Seq<char> {
    decimal(code as nat) + " "@ + status_reason(code)
}

/// The `Display` form of the `reqwest::StatusCode` that
/// `reqwest::StatusCode::from_u16` makes of `code`: the code in decimal, a
/// space and the reason phrase, which depends on the code alone. `from_u16`
/// accepts the codes from 100 to 999.
#[verifier::external_body]
fn status_text(code: u16) -> (text: String)
    requires
        is_status(code),
    ensures
        text@ == decimal(code as nat) + " "@ + status_reason(code),
{
    reqwest::StatusCode::from_u16(code).unwrap().to_string()
}

/// What is said of a `peer` that answered with a status other than success.
pub open spec fn refusal_text(peer: Seq<char>, status: Seq<char>) -> Seq<char> {
    peer + " returned HTTP "@ + status
}

/// What is said of a `peer` that answered with the displayed `status`.
pub fn refusal(peer: &str, status: &str) -> (text: String)
    ensures
        text@ == refusal_text(peer@, status@),
{
    joined(&joined(peer, " returned HTTP "), status)
}

/// What is said of a `peer` that answered with the status `code`.
pub fn refusal_of(peer: &str, code: u16) -> (text: String)
    requires
        is_status(code),
    ensures
        text@ == refusal_text(peer@, status_display(code)),
{
    refusal(peer, &status_text(code))
}

} // verus!
