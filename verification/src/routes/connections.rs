//! The connections route. Connections are not paged on screen: the first
//! hundred are fetched and shown.

use crate::helpers::{is_htmx_request, is_partial_update};
use crate::upstream::{rows_or_empty, spec_rows, Fetched, ListParams};
use axum::http::HeaderMap;
use vstd::prelude::*;

verus! {

/// The most connections that are fetched.
pub const MAX_CONNECTIONS: u32 = 100;

/// The full connections page.
pub struct ListTemplate<C> {
    pub connections: Vec<C>,
}

/// The connections table alone, for an in-page update.
pub struct TableTemplate<C> {
    pub connections: Vec<C>,
}

/// What the connections route renders.
pub enum Listing<C> {
    Full(ListTemplate<C>),
    Table(TableTemplate<C>),
}

impl<C> Listing<C> {
    /// The rows shown, whichever the template.
    pub open spec fn rows(self) -> Seq<C> {
        match self {
            Listing::Full(page) => page.connections@,
            Listing::Table(table) => table.connections@,
        }
    }
}

/// What to ask the upstream for: the first page, up to the cap, without
/// totals.
pub fn list_params() -> (params: ListParams)
    ensures
        params.page == Some(0u32),
        params.per_page == Some(MAX_CONNECTIONS),
        params.include_totals == Some(false),
{
    ListParams { page: Some(0), per_page: Some(MAX_CONNECTIONS), include_totals: Some(false) }
}

/// Chooses the view of the connections: the table alone for an in-page
/// update, the full page otherwise. A failed fetch shows no rows.
pub fn list<C>(connections: Fetched<Vec<C>>, headers: &HeaderMap) -> (view: Listing<C>)
    ensures
        view is Table <==> is_partial_update(*headers),
        view.rows() == spec_rows(connections),
{
    let connections = rows_or_empty(connections);
    if is_htmx_request(headers) {
        Listing::Table(TableTemplate { connections })
    } else {
        Listing::Full(ListTemplate { connections })
    }
}

/// The names of the connections, for a choice in a form: what the upstream
/// returned, or none when the call failed.
pub fn get_connection_names(names: Fetched<Vec<String>>) -> (list: Vec<String>)
    ensures
        list@ == spec_rows(names),
{
    rows_or_empty(names)
}

} // verus!
