//! HTTP status codes, judged and printed by hyper.

use vstd::prelude::*;

verus! {

/// The text that hyper prints for the status code `code`: the number, a
/// space, and the reason phrase that hyper's table holds for it.
///
/// The table is hyper's; this library only gives its result a name.
pub uninterp spec fn status_line(code: u16) -> Seq<char>;

/// Whether `code` lies in the success range of HTTP, 200 to 299.
pub open spec fn is_success(code: u16) -> bool {
    200 <= code <= 299
}

/// Calls `hyper::status::StatusCode::is_success` on the status code with the
/// number `code`.
///
/// Not proved: that hyper counts exactly the codes from 200 to 299 as
/// successes. Its source takes the class of a code from its number, and the
/// number of the value made from `code` is `code` again.
#[verifier::external_body]
pub(crate) fn status_is_success(code: u16) -> (ok: bool)
    ensures
        ok == is_success(code),
{
    hyper::status::StatusCode::from_u16(code).is_success()
}

/// Prints the status code with the number `code` through the `Display` impl
/// of `hyper::status::StatusCode`.
///
/// Not proved: that the text depends on the number alone, which is all that
/// naming it [`status_line`] claims.
#[verifier::external_body]
pub(crate) fn status_text(code: u16) -> (text: String)
    ensures
        text@ == status_line(code),
{
    hyper::status::StatusCode::from_u16(code).to_string()
}

} // verus!
