//! How an HTTP answer's status decides between its body and an error. The
//! requests themselves are made by the application.
use vstd::prelude::*;

use crate::domain::SearchError;
use crate::text::{cat3, decimal};

verus! {

/// The reason phrase `http::StatusCode` gives the status `code`: its
/// canonical reason, or `<unknown status code>` where it has none.
pub uninterp spec fn http_status_reason(code: int) -> Seq<char>;

/// What `{}` prints for the HTTP status `code`: the number, a space, and its
/// reason phrase.
pub open spec fn http_status_display(code: int) -> Seq<char> {
    decimal(code as nat) + " "@ + http_status_reason(code)
}

/// Renders `reqwest::StatusCode::from_u16(code)` with `{}` (the `Display` of
/// `http::StatusCode`: the number, a space, then the canonical reason or
/// `<unknown status code>`). The contract states that shape and names the
/// reason phrase (`http_status_reason`); the table of reasons is not stated.
#[verifier::external_body]
fn status_display(code: u16) -> (r: String)
    requires
        100 <= code <= 999,
    ensures
        r@ == decimal(code as nat) + " "@ + http_status_reason(code as int),
{
    match reqwest::StatusCode::from_u16(code) {
        Ok(status) => status.to_string(),
        Err(_) => code.to_string(),
    }
}

/// How a provider's HTTP status is treated.
#[derive(Debug, Clone, Copy, PartialEq, Eq, Structural)]
pub enum StatusClass {
    /// 2xx: the body is decoded.
    Success,
    /// 401 or 403.
    Unauthorized,
    /// 429.
    RateLimited,
    /// Any other status: the body is reported.
    Failure,
}

pub open spec fn spec_status_class(code: u16) -> StatusClass {
    if code == 401 || code == 403 {
        StatusClass::Unauthorized
    } else if code == 429 {
        StatusClass::RateLimited
    } else if 200 <= code <= 299 {
        StatusClass::Success
    } else {
        StatusClass::Failure
    }
}

/// How a provider's HTTP status is treated.
pub fn classify_status(code: u16) -> (r: StatusClass)
    ensures
        r == spec_status_class(code),
{
    if code == 401 || code == 403 {
        StatusClass::Unauthorized
    } else if code == 429 {
        StatusClass::RateLimited
    } else if 200 <= code && code <= 299 {
        StatusClass::Success
    } else {
        StatusClass::Failure
    }
}

/// The error for a failed answer, given the text of its status (such as
/// `404 Not Found`) and its body.
pub fn failure_error(status_text: &str, body: &str) -> (r: SearchError)
    ensures
        r matches SearchError::Provider(m) && m@ == "HTTP "@ + status_text@ + ": "@ + body@,
{
    let mut message = cat3("HTTP ", status_text, ": ");
    message.append(body);
    SearchError::Provider(message)
}

/// The error for a status that is not a success, with the body of the
/// answer for the statuses that report it.
pub fn status_error(code: u16, body: &str) -> (r: SearchError)
    requires
        100 <= code <= 999,
        spec_status_class(code) != StatusClass::Success,
    ensures
        spec_status_class(code) == StatusClass::Unauthorized ==> r == SearchError::Auth,
        spec_status_class(code) == StatusClass::RateLimited ==> r == SearchError::RateLimited,
        spec_status_class(code) == StatusClass::Failure ==> (r matches SearchError::Provider(m)
            && m@ == "HTTP "@ + http_status_display(code as int) + ": "@ + body@),
{
    match classify_status(code) {
        StatusClass::Unauthorized => SearchError::Auth,
        StatusClass::RateLimited => SearchError::RateLimited,
        _ => {
            let status = status_display(code);
            failure_error(status.as_str(), body)
        },
    }
}

} // verus!

verus! {

/// How a status is treated: 401 and 403 mean the key was refused, 429 that
/// the provider throttles, 200 to 299 success, and every other status a
/// failure.
pub proof fn lemma_status_classes(code: u16)
    ensures
        spec_status_class(code) == StatusClass::Unauthorized <==> (code == 401 || code == 403),
        spec_status_class(code) == StatusClass::RateLimited <==> code == 429,
        spec_status_class(code) == StatusClass::Success <==> (200 <= code && code <= 299),
        spec_status_class(code) == StatusClass::Failure <==> !(code == 401 || code == 403
            || code == 429 || (200 <= code && code <= 299)),
{
}

} // verus!
