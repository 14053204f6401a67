//! What came back from one outbound HTTP request, and how a failure of it is
//! reported.

use vstd::prelude::*;
use crate::text::{decimal, decimal_text};

verus! {

/// The reply to one request: either none was obtained (DNS, timeout,
/// connection), or a status line with its body.
#[derive(Debug)]
pub enum HttpReply {
    /// No response; the transport's own description of the failure.
    Unreached(String),
    /// A response: its status code, the status's canonical reason phrase if
    /// it has one, and the body.
    Answered { status: u16, phrase: Option<String>, body: String },
}

/// Status codes 200 to 299.
pub open spec fn is_success(code: u16) -> bool {
    200 <= code && code < 300
}

/// A status as `<code> <reason>`.
pub open spec fn status_text(code: u16, phrase: Option<String>) -> Seq<char> {
    decimal(code as nat) + " "@ + match phrase {
        Some(p) => p@,
        None => "<unknown status code>"@,
    }
}

pub fn is_success_status(code: u16) -> (r: bool)
    ensures
        r == is_success(code),
{
    200 <= code && code < 300
}

/// The text of a status, `<code> <reason>`.
pub fn status_line(code: u16, phrase: &Option<String>) -> (r: String)
    ensures
        r@ == status_text(code, *phrase),
{
    let r = decimal_text(code).concat(" ");
    match phrase {
        Some(p) => r.concat(p.as_str()),
        None => r.concat("<unknown status code>"),
    }
}

/// The result of the generic fetch: the body of a successful response.
pub open spec fn fetch_outcome(reply: HttpReply, r: Result<String, String>) -> bool {
    match reply {
        HttpReply::Unreached(t) => r == Err::<String, String>(t),
        HttpReply::Answered { status, phrase, body } => if is_success(status) {
            r == Ok::<String, String>(body)
        } else {
            r matches Err(e) && e@ == "Request failed with status: "@ + status_text(status, phrase)
        },
    }
}

/// The result of the generic fetch for its reply.
pub fn fetch_url_result(reply: HttpReply) -> (r: Result<String, String>)
    ensures
        fetch_outcome(reply, r),
{
    match reply {
        HttpReply::Unreached(t) => Err(t),
        HttpReply::Answered { status, phrase, body } => {
            if is_success_status(status) {
                Ok(body)
            } else {
                let line = status_line(status, &phrase);
                Err(String::from_str("Request failed with status: ").concat(line.as_str()))
            }
        },
    }
}

} // verus!
