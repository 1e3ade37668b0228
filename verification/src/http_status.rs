//! HTTP status codes.
use vstd::prelude::*;
use crate::number::decimal;
use crate::text::begins_with;

verus! {

/// A status code with its reason, as `http::StatusCode` prints it.
pub uninterp spec fn status_line(code: u16) -> Seq<char>;

/// `Display` of `http::StatusCode`: the code, and its canonical reason behind
/// it. The reasons are left to the name. A code of fewer or more than three
/// digits is no status code.
#[verifier::external_body]
pub(crate) fn status_text(code: u16) -> (r: String)
    requires
        100 <= code < 1000,
    ensures
        r@ == status_line(code),
        begins_with(r@, decimal(code as nat)),
{
    match http::StatusCode::from_u16(code) {
        Ok(status) => status.to_string(),
        Err(_) => String::new(),
    }
}

/// Does a status code mean success?
pub open spec fn success(code: u16) -> bool {
    200 <= code < 300
}

/// Does a status code mean success?
pub fn is_success(code: u16) -> (r: bool)
    ensures
        r == success(code),
        r <==> code / 100 == 2,
{
    code >= 200 && code < 300
}

/// Can a number be a status code at all?
pub open spec fn is_status(code: u16) -> bool {
    100 <= code < 1000
}

} // verus!
