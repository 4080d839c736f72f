//! What the client makes of the API's status.

use vstd::prelude::*;
use crate::outside::{canonical_reason, canonical_reason_of};
use crate::text::{push_str, decimal, decimal_text};

verus! {

/// A status of the 2xx class.
pub open spec fn is_success(status: u16) -> bool {
    200 <= status && status < 300
}

/// How a status code prints: the number and its reason phrase.
pub open spec fn status_display(status: u16) -> Seq<char> {
    decimal(status as nat) + " "@ + match canonical_reason_of(status) {
        Some(r) => r,
        None => "<unknown status code>"@,
    }
}

/// The error an unsuccessful answer of the API becomes.
pub open spec fn api_error_message(status: u16, body: Seq<char>) -> Seq<char> {
    "Postman API respondió con status "@ + status_display(status) + ": "@ + body
}

/// Checks the status of an API answer: a 2xx answer passes, any other
/// becomes an error naming the status and quoting the body.
pub fn check_status(status: u16, body: &str) -> (r: Result<(), String>)
    ensures
        is_success(status) <==> r is Ok,
        r matches Err(e) ==> e@ == api_error_message(status, body@),
{
    if 200 <= status && status < 300 {
        return Ok(());
    }
    let mut e = String::new();
    push_str(&mut e, "Postman API respondió con status ");
    let digits = decimal_text(status as u64);
    push_str(&mut e, digits.as_str());
    push_str(&mut e, " ");
    match canonical_reason(status) {
        Some(r) => push_str(&mut e, r.as_str()),
        None => push_str(&mut e, "<unknown status code>"),
    }
    push_str(&mut e, ": ");
    push_str(&mut e, body);
    assert(e@ =~= api_error_message(status, body@));
    Err(e)
}

} // verus!
