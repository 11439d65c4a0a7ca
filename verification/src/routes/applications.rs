//! The applications route. Like connections, applications are not paged on
//! screen: the first hundred are fetched and shown.

use crate::helpers::{is_htmx_request, is_partial_update};
use crate::upstream::{rows_or_empty, spec_rows, Fetched, ListParams};
use axum::http::HeaderMap;
use vstd::prelude::*;

verus! {

/// The most applications that are fetched.
pub const MAX_APPLICATIONS: u32 = 100;

/// The full applications page.
pub struct ListTemplate<A> {
    pub applications: Vec<A>,
}

/// The applications table alone, for an in-page update.
pub struct TableTemplate<A> {
    pub applications: Vec<A>,
}

/// What the applications route renders.
pub enum Listing<A> {
    Full(ListTemplate<A>),
    Table(TableTemplate<A>),
}

impl<A> Listing<A> {
    /// The rows shown, whichever the template.
    pub open spec fn rows(self) -> Seq<A> {
        match self {
            Listing::Full(page) => page.applications@,
            Listing::Table(table) => table.applications@,
        }
    }
}

/// What to ask the upstream for: the first page, up to the cap, without
/// totals.
pub fn list_params() -> (params: ListParams)
    ensures
        params.page == Some(0u32),
        params.per_page == Some(MAX_APPLICATIONS),
        params.include_totals == Some(false),
{
    ListParams { page: Some(0), per_page: Some(MAX_APPLICATIONS), include_totals: Some(false) }
}

/// Chooses the view of the applications: the table alone for an in-page
/// update, the full page otherwise. A failed fetch shows no rows.
pub fn list<A>(applications: Fetched<Vec<A>>, headers: &HeaderMap) -> (view: Listing<A>)
    ensures
        view is Table <==> is_partial_update(*headers),
        view.rows() == spec_rows(applications),
{
    let applications = rows_or_empty(applications);
    if is_htmx_request(headers) {
        Listing::Table(TableTemplate { applications })
    } else {
        Listing::Full(ListTemplate { applications })
    }
}

} // verus!
