//! The request-to-view pipeline of an administrative console for an identity
//! provider: validation of submitted forms, pagination, detection of in-page
//! update requests, and the choice of what each route answers with.
//!
//! The library decides; it performs no I/O. The upstream management API and
//! the template engine are reached by the program around it, which hands the
//! library what they returned.

pub mod helpers;
pub mod errors;
pub mod templates;
pub mod config;
pub mod form_errors;
pub mod validation;
pub mod upstream;
pub mod routes;
