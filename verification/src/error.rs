//! Application-level errors and the HTTP response each one maps to.

use vstd::prelude::*;
use crate::text::push_str;

verus! {

/// Application-level error type that maps to HTTP responses.
///
/// `Internal` and `Database` carry the message of the underlying failure; it
/// is logged but never shown to the caller.
#[derive(Clone, Debug, PartialEq, Eq)]
pub enum AppError {
    NotFound(String),
    Unauthorized(String),
    Forbidden(String),
    BadRequest(String),
    Conflict(String),
    /// An external service failed in a way the caller should see verbatim.
    UpstreamUnavailable(String),
    Internal(String),
    Database(String),
}

/// The status line, error label and optional detail of an error response.
pub struct ErrorResponseParts {
    pub status: u16,
    pub error: &'static str,
    pub detail: Option<String>,
}

/// HTTP status code of each error kind.
pub open spec fn spec_status(e: AppError) -> u16 {
    match e {
        AppError::NotFound(_) => 404,
        AppError::Unauthorized(_) => 401,
        AppError::Forbidden(_) => 403,
        AppError::BadRequest(_) => 400,
        AppError::Conflict(_) => 409,
        AppError::UpstreamUnavailable(_) => 502,
        AppError::Internal(_) => 500,
        AppError::Database(_) => 500,
    }
}

/// The `error` label of each error kind.
pub open spec fn spec_label(e: AppError) -> Seq<char> {
    match e {
        AppError::NotFound(_) => "not found"@,
        AppError::Unauthorized(_) => "unauthorized"@,
        AppError::Forbidden(_) => "forbidden"@,
        AppError::BadRequest(_) => "bad request"@,
        AppError::Conflict(_) => "conflict"@,
        AppError::UpstreamUnavailable(_) => "upstream unavailable"@,
        AppError::Internal(_) => "internal server error"@,
        AppError::Database(_) => "internal server error"@,
    }
}

/// The caller-visible detail: the message for client-facing kinds, nothing
/// for internal failures.
pub open spec fn spec_detail(e: AppError) -> Option<Seq<char>> {
    match e {
        AppError::NotFound(m) => Some(m@),
        AppError::Unauthorized(m) => Some(m@),
        AppError::Forbidden(m) => Some(m@),
        AppError::BadRequest(m) => Some(m@),
        AppError::Conflict(m) => Some(m@),
        AppError::UpstreamUnavailable(m) => Some(m@),
        AppError::Internal(_) => None,
        AppError::Database(_) => None,
    }
}

/// The display text of an error (`"<kind>: <message>"`; internal failures
/// show their own message unchanged).
pub open spec fn spec_message(e: AppError) -> Seq<char> {
    match e {
        AppError::NotFound(m) => "not found: "@ + m@,
        AppError::Unauthorized(m) => "unauthorized: "@ + m@,
        AppError::Forbidden(m) => "forbidden: "@ + m@,
        AppError::BadRequest(m) => "bad request: "@ + m@,
        AppError::Conflict(m) => "conflict: "@ + m@,
        AppError::UpstreamUnavailable(m) => "upstream unavailable: "@ + m@,
        AppError::Internal(m) => m@,
        AppError::Database(m) => m@,
    }
}

/// Internal and database failures never reach the caller: their responses
/// are 500 with a generic label and no detail, whatever the message. Every
/// other kind shows its own message as the detail, with a 4xx status (502
/// for an unavailable upstream).
pub proof fn lemma_internal_details_stay_hidden(e: AppError)
    ensures
        (e is Internal || e is Database) ==> spec_status(e) == 500 && spec_detail(e) is None
            && spec_label(e) == "internal server error"@,
        e matches AppError::NotFound(m) ==> spec_detail(e) == Some(m@) && spec_status(e) == 404,
        e matches AppError::Unauthorized(m) ==> spec_detail(e) == Some(m@) && spec_status(e) == 401,
        e matches AppError::Forbidden(m) ==> spec_detail(e) == Some(m@) && spec_status(e) == 403,
        e matches AppError::BadRequest(m) ==> spec_detail(e) == Some(m@) && spec_status(e) == 400,
        e matches AppError::Conflict(m) ==> spec_detail(e) == Some(m@) && spec_status(e) == 409,
        e matches AppError::UpstreamUnavailable(m) ==> spec_detail(e) == Some(m@) && spec_status(e) == 502,
{
}

impl AppError {
    /// Status code, label and detail of the HTTP response for this error.
    pub fn response_parts(&self) -> (r: ErrorResponseParts)
        ensures
            r.status == spec_status(*self),
            r.error@ == spec_label(*self),
            crate::paths::opt_view(r.detail) == spec_detail(*self),
    {
        match self {
            AppError::NotFound(m) => ErrorResponseParts { status: 404, error: "not found", detail: Some(m.clone()) },
            AppError::Unauthorized(m) => ErrorResponseParts { status: 401, error: "unauthorized", detail: Some(m.clone()) },
            AppError::Forbidden(m) => ErrorResponseParts { status: 403, error: "forbidden", detail: Some(m.clone()) },
            AppError::BadRequest(m) => ErrorResponseParts { status: 400, error: "bad request", detail: Some(m.clone()) },
            AppError::Conflict(m) => ErrorResponseParts { status: 409, error: "conflict", detail: Some(m.clone()) },
            AppError::UpstreamUnavailable(m) => ErrorResponseParts { status: 502, error: "upstream unavailable", detail: Some(m.clone()) },
            AppError::Internal(_) => ErrorResponseParts { status: 500, error: "internal server error", detail: None },
            AppError::Database(_) => ErrorResponseParts { status: 500, error: "internal server error", detail: None },
        }
    }

    /// The display text of this error.
    pub fn message(&self) -> (r: String)
        ensures
            r@ == spec_message(*self),
    {
        let (prefix, m) = match self {
            AppError::NotFound(m) => ("not found: ", m),
            AppError::Unauthorized(m) => ("unauthorized: ", m),
            AppError::Forbidden(m) => ("forbidden: ", m),
            AppError::BadRequest(m) => ("bad request: ", m),
            AppError::Conflict(m) => ("conflict: ", m),
            AppError::UpstreamUnavailable(m) => ("upstream unavailable: ", m),
            AppError::Internal(m) => ("", m),
            AppError::Database(m) => ("", m),
        };
        let mut r = String::new();
        push_str(&mut r, prefix);
        push_str(&mut r, m.as_str());
        proof {
            reveal_strlit("");
        }
        r
    }
}

} // verus!
