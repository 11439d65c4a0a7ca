use admin_console::errors::AppError;
use admin_console::templates::{render, Response, ToastTemplate, ToastType};

#[test]
fn rendering_failure_is_an_internal_error() {
    let response = AppError::Template(askama::Error::Fmt).into_response();
    assert_eq!(response.status, 500);
    assert_eq!(response.body, "Template error");
}

#[test]
fn upstream_failure_is_a_bad_gateway() {
    let response = AppError::Auth0("token expired".to_string()).into_response();
    assert_eq!(response.status, 502);
    assert_eq!(response.body, "Upstream error");
}

#[test]
fn missing_record_is_not_found() {
    let response = AppError::NotFound.into_response();
    assert_eq!(response.status, 404);
    assert_eq!(response.body, "Not found");
}

#[test]
fn errors_in_words() {
    assert_eq!(AppError::Template(askama::Error::Fmt).message(), "template rendering failed");
    assert_eq!(AppError::Auth0("boom".to_string()).message(), "Auth0 API error: boom");
    assert_eq!(AppError::Auth0(String::new()).message(), "Auth0 API error: ");
    assert_eq!(AppError::NotFound.message(), "not found");
}

#[test]
fn rendered_template_becomes_a_page() {
    match render(Ok("<p>hello</p>".to_string())) {
        Ok(Response::Html(body)) => assert_eq!(body, "<p>hello</p>"),
        _ => panic!("expected a page"),
    }
}

#[test]
fn template_error_fails_the_request() {
    match render(Err(askama::Error::ValueMissing)) {
        Err(AppError::Template(askama::Error::ValueMissing)) => {}
        _ => panic!("expected a template error"),
    }
}

#[test]
fn toast_kinds_have_their_labels() {
    assert_eq!(ToastType::Success.label(), "success");
    assert_eq!(ToastType::Danger.label(), "danger");
    let toast = ToastTemplate {
        toast_type: ToastType::Danger,
        title: "Error".to_string(),
        message: "Failed to update user".to_string(),
    };
    assert_eq!(toast.toast_type.label(), "danger");
}
