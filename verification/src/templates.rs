//! Responses, and the step from a rendered template to a response.

use crate::errors::{AppError, AppResult};
use vstd::prelude::*;

verus! {

/// A response that needs no further work: a page body or a redirect.
pub enum Response {
    /// An HTML body, sent with a success status.
    Html(String),
    /// A redirect to the given location.
    Redirect(String),
}

/// Turns what the template engine made of a view into a response. A view
/// that could not be rendered is a hard failure of the request.
pub fn render(rendered: Result<String, askama::Error>) -> (page: AppResult<Response>)
    ensures
        page == match rendered {
            Ok(body) => Ok::<Response, AppError>(Response::Html(body)),
            Err(e) => Err(AppError::Template(e)),
        },
{
    match rendered {
        Ok(body) => Ok(Response::Html(body)),
        Err(e) => Err(AppError::Template(e)),
    }
}

/// The kind of a toast notification.
#[derive(Copy, Clone)]
pub enum ToastType {
    Success,
    Danger,
}

impl ToastType {
    /// The name of the kind as the style sheet knows it.
    pub open spec fn spec_label(self) -> Seq<char> {
        match self {
            ToastType::Success => "success"@,
            ToastType::Danger => "danger"@,
        }
    }

    /// The name of the kind as the style sheet knows it.
    pub fn label(&self) -> (name: &'static str)
        ensures
            name@ == self.spec_label(),
    {
        match self {
            ToastType::Success => "success",
            ToastType::Danger => "danger",
        }
    }
}

/// A toast notification: its kind, a title and a message.
pub struct ToastTemplate {
    pub toast_type: ToastType,
    pub title: String,
    pub message: String,
}

} // verus!
