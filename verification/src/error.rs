//! The error taxonomy of the services and its mapping to HTTP responses.

use vstd::prelude::*;
use vstd::string::*;

verus! {

/// What can go wrong while serving a request.
#[derive(Debug)]
pub enum AppError {
    Validation(String),
    Unauthorized(String),
    NotFound(String),
    RateLimited,
    PayloadTooLarge(String),
    UnsupportedMediaType(String),
    Internal(String),
    Database(String),
    Sqs(String),
}

/// The mathematical value of an [`AppError`].
pub ghost enum AppErrorView {
    Validation(Seq<char>),
    Unauthorized(Seq<char>),
    NotFound(Seq<char>),
    RateLimited,
    PayloadTooLarge(Seq<char>),
    UnsupportedMediaType(Seq<char>),
    Internal(Seq<char>),
    Database(Seq<char>),
    Sqs(Seq<char>),
}

impl View for AppError {
    type V = AppErrorView;

    open spec fn view(&self) -> AppErrorView {
        match self {
            AppError::Validation(m) => AppErrorView::Validation(m@),
            AppError::Unauthorized(m) => AppErrorView::Unauthorized(m@),
            AppError::NotFound(m) => AppErrorView::NotFound(m@),
            AppError::RateLimited => AppErrorView::RateLimited,
            AppError::PayloadTooLarge(m) => AppErrorView::PayloadTooLarge(m@),
            AppError::UnsupportedMediaType(m) => AppErrorView::UnsupportedMediaType(m@),
            AppError::Internal(m) => AppErrorView::Internal(m@),
            AppError::Database(m) => AppErrorView::Database(m@),
            AppError::Sqs(m) => AppErrorView::Sqs(m@),
        }
    }
}

impl DeepView for AppError {
    type V = AppErrorView;

    open spec fn deep_view(&self) -> AppErrorView {
        self@
    }
}

/// What the HTTP layer sends for an error: the status line, the body's
/// `error.code` and `error.message`, and whether the error collector is told.
pub struct ErrorResponse {
    pub status: u16,
    pub code: String,
    pub message: String,
    pub report: bool,
}

impl AppErrorView {
    /// The HTTP status of the error.
    pub open spec fn status(self) -> u16 {
        match self {
            AppErrorView::Validation(_) => 400,
            AppErrorView::Unauthorized(_) => 401,
            AppErrorView::NotFound(_) => 404,
            AppErrorView::RateLimited => 429,
            AppErrorView::PayloadTooLarge(_) => 413,
            AppErrorView::UnsupportedMediaType(_) => 415,
            AppErrorView::Internal(_) => 500,
            AppErrorView::Database(_) => 500,
            AppErrorView::Sqs(_) => 500,
        }
    }

    /// The machine-readable class of the error.
    pub open spec fn code(self) -> Seq<char> {
        match self {
            AppErrorView::Validation(_) => "VALIDATION_ERROR"@,
            AppErrorView::Unauthorized(_) => "UNAUTHORIZED"@,
            AppErrorView::NotFound(_) => "NOT_FOUND"@,
            AppErrorView::RateLimited => "RATE_LIMITED"@,
            AppErrorView::PayloadTooLarge(_) => "PAYLOAD_TOO_LARGE"@,
            AppErrorView::UnsupportedMediaType(_) => "UNSUPPORTED_MEDIA_TYPE"@,
            AppErrorView::Internal(_) => "INTERNAL_ERROR"@,
            AppErrorView::Database(_) => "DATABASE_ERROR"@,
            AppErrorView::Sqs(_) => "SQS_ERROR"@,
        }
    }

    /// The human-readable text of the error.
    pub open spec fn message(self) -> Seq<char> {
        match self {
            AppErrorView::Validation(m) => "Validation error: "@ + m,
            AppErrorView::Unauthorized(m) => "Unauthorized: "@ + m,
            AppErrorView::NotFound(m) => "Not found: "@ + m,
            AppErrorView::RateLimited => "Rate limited"@,
            AppErrorView::PayloadTooLarge(m) => "Payload too large: "@ + m,
            AppErrorView::UnsupportedMediaType(m) => "Unsupported media type: "@ + m,
            AppErrorView::Internal(m) => "Internal error: "@ + m,
            AppErrorView::Database(m) => "Database error: "@ + m,
            AppErrorView::Sqs(m) => "SQS error: "@ + m,
        }
    }

    /// Server-side failures (status 500 and above) go to the error collector.
    pub open spec fn is_server_error(self) -> bool {
        self.status() >= 500
    }
}

/// `prefix` followed by `detail`.
fn prefixed(prefix: &str, detail: &str) -> (r: String)
    ensures
        r@ == prefix@ + detail@,
{
    let mut out = String::from_str(prefix);
    out.append(detail);
    out
}

impl AppError {
    /// The HTTP status that answers this error.
    pub fn status_code(&self) -> (r: u16)
        ensures
            r == self@.status(),
    {
        match self {
            AppError::Validation(_) => 400,
            AppError::Unauthorized(_) => 401,
            AppError::NotFound(_) => 404,
            AppError::RateLimited => 429,
            AppError::PayloadTooLarge(_) => 413,
            AppError::UnsupportedMediaType(_) => 415,
            AppError::Internal(_) => 500,
            AppError::Database(_) => 500,
            AppError::Sqs(_) => 500,
        }
    }

    /// The class name sent as `error.code`.
    pub fn code(&self) -> (r: &'static str)
        ensures
            r@ == self@.code(),
    {
        match self {
            AppError::Validation(_) => "VALIDATION_ERROR",
            AppError::Unauthorized(_) => "UNAUTHORIZED",
            AppError::NotFound(_) => "NOT_FOUND",
            AppError::RateLimited => "RATE_LIMITED",
            AppError::PayloadTooLarge(_) => "PAYLOAD_TOO_LARGE",
            AppError::UnsupportedMediaType(_) => "UNSUPPORTED_MEDIA_TYPE",
            AppError::Internal(_) => "INTERNAL_ERROR",
            AppError::Database(_) => "DATABASE_ERROR",
            AppError::Sqs(_) => "SQS_ERROR",
        }
    }

    /// The text sent as `error.message`.
    pub fn message(&self) -> (r: String)
        ensures
            r@ == self@.message(),
    {
        match self {
            AppError::Validation(m) => prefixed("Validation error: ", m.as_str()),
            AppError::Unauthorized(m) => prefixed("Unauthorized: ", m.as_str()),
            AppError::NotFound(m) => prefixed("Not found: ", m.as_str()),
            AppError::RateLimited => String::from_str("Rate limited"),
            AppError::PayloadTooLarge(m) => prefixed("Payload too large: ", m.as_str()),
            AppError::UnsupportedMediaType(m) => prefixed("Unsupported media type: ", m.as_str()),
            AppError::Internal(m) => prefixed("Internal error: ", m.as_str()),
            AppError::Database(m) => prefixed("Database error: ", m.as_str()),
            AppError::Sqs(m) => prefixed("SQS error: ", m.as_str()),
        }
    }

    /// Whether the error is a server-side failure.
    pub fn is_server_error(&self) -> (r: bool)
        ensures
            r == self@.is_server_error(),
    {
        self.status_code() >= 500
    }

    /// The response for this error.
    pub fn into_response(self) -> (r: ErrorResponse)
        ensures
            r.status == self@.status(),
            r.code@ == self@.code(),
            r.message@ == self@.message(),
            r.report == self@.is_server_error(),
    {
        let status = self.status_code();
        let code = String::from_str(self.code());
        let message = self.message();
        ErrorResponse { status, code, message, report: status >= 500 }
    }

    /// The error for a failed query of the relational store: a missing row is
    /// `NotFound`, anything else a `Database` error that carries `detail`.
    pub fn from_database(not_found: bool, detail: String) -> (r: AppError)
        ensures
            not_found ==> r@ == AppErrorView::NotFound("Record not found"@),
            !not_found ==> r@ == AppErrorView::Database(detail@),
    {
        if not_found {
            AppError::NotFound(String::from_str("Record not found"))
        } else {
            AppError::Database(detail)
        }
    }

    /// The error for a failure with no class of its own.
    pub fn internal(detail: String) -> (r: AppError)
        ensures
            r@ == AppErrorView::Internal(detail@),
    {
        AppError::Internal(detail)
    }
}

} // verus!
