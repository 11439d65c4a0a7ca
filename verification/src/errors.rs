//! The failures a request can end in, and what each is answered with.

use vstd::prelude::*;

verus! {

/// `askama::Error`, held as an opaque value: what the template engine
/// reports when a view cannot be rendered.
#[verifier::external_type_specification]
#[verifier::external_body]
pub struct ExTemplateError(askama::Error);

pub type AppResult<T> = Result<T, AppError>;

/// Why a request could not be answered with a view.
#[derive(Debug)]
pub enum AppError {
    /// A view could not be rendered. This is a defect of the program, not of
    /// the request or of the upstream API.
    Template(askama::Error),
    /// A write to the upstream API failed; the text is the upstream error's.
    Auth0(String),
    /// The upstream API holds no record under the id asked for.
    NotFound,
}

/// The status line and body that an error is answered with.
pub struct ErrorResponse {
    pub status: u16,
    pub body: &'static str,
}

impl AppError {
    /// The HTTP status that stands for this error.
    pub open spec fn spec_status(self) -> u16 {
        match self {
            AppError::Template(_) => 500,
            AppError::Auth0(_) => 502,
            AppError::NotFound => 404,
        }
    }

    /// The body sent with this error.
    pub open spec fn spec_body(self) -> Seq<char> {
        match self {
            AppError::Template(_) => "Template error"@,
            AppError::Auth0(_) => "Upstream error"@,
            AppError::NotFound => "Not found"@,
        }
    }

    /// The error in words.
    pub open spec fn spec_message(self) -> Seq<char> {
        match self {
            AppError::Template(_) => "template rendering failed"@,
            AppError::Auth0(text) => "Auth0 API error: "@ + text@,
            AppError::NotFound => "not found"@,
        }
    }

    /// The response for this error: a rendering failure is an internal error,
    /// an upstream failure a bad gateway, a missing record not found. The
    /// body never carries the upstream's own words.
    pub fn into_response(self) -> (response: ErrorResponse)
        ensures
            response.status == self.spec_status(),
            response.body@ == self.spec_body(),
    {
        match self {
            AppError::Template(_) => ErrorResponse { status: 500, body: "Template error" },
            AppError::Auth0(_) => ErrorResponse { status: 502, body: "Upstream error" },
            AppError::NotFound => ErrorResponse { status: 404, body: "Not found" },
        }
    }

    /// The error in words, for a log line.
    pub fn message(&self) -> (text: String)
        ensures
            text@ == self.spec_message(),
    {
        match self {
            AppError::Template(_) => String::from_str("template rendering failed"),
            AppError::Auth0(text) => String::from_str("Auth0 API error: ").concat(text.as_str()),
            AppError::NotFound => String::from_str("not found"),
        }
    }
}

} // verus!
