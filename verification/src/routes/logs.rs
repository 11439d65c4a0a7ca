//! The audit log route.

use crate::helpers::{is_htmx_request, is_partial_update, shown_pages, total_pages};
use crate::upstream::{
    copy_of, or_empty_text, rows_or_empty, spec_rows, text_of, text_or_empty, Fetched,
    ListLogsParams, ListLogsParamsView,
};
use axum::http::HeaderMap;
use vstd::prelude::*;

verus! {

/// How many log events a page holds.
pub const LOGS_PER_PAGE: u32 = 50;

/// The query of the log listing. A missing page is the first page; a
/// missing filter is no filter.
#[derive(Debug)]
pub struct ListQuery {
    pub page: Option<u32>,
    pub q: Option<String>,
}

impl Default for ListQuery {
    fn default() -> (query: ListQuery)
        ensures
            query.page is None,
            query.q is None,
    {
        ListQuery { page: None, q: None }
    }
}

/// The page asked for, counted from zero.
pub open spec fn page_or_first(page: Option<u32>) -> u32 {
    match page {
        Some(n) => n,
        None => 0,
    }
}

/// The full log page.
pub struct ListTemplate<L> {
    pub logs: Vec<L>,
    pub page: u32,
    pub total_pages: u32,
    pub search_query: String,
}

/// The log table alone, for an in-page update.
pub struct TableTemplate<L> {
    pub logs: Vec<L>,
    pub page: u32,
    pub total_pages: u32,
}

/// What the log route renders.
pub enum Listing<L> {
    Full(ListTemplate<L>),
    Table(TableTemplate<L>),
}

impl<L> Listing<L> {
    /// The rows shown, whichever the template.
    pub open spec fn rows(self) -> Seq<L> {
        match self {
            Listing::Full(page) => page.logs@,
            Listing::Table(table) => table.logs@,
        }
    }

    /// The page shown, counted from zero.
    pub open spec fn page(self) -> u32 {
        match self {
            Listing::Full(page) => page.page,
            Listing::Table(table) => table.page,
        }
    }

    /// The page count shown.
    pub open spec fn total_pages(self) -> u32 {
        match self {
            Listing::Full(page) => page.total_pages,
            Listing::Table(table) => table.total_pages,
        }
    }
}

/// What the listing asks the upstream for.
pub open spec fn spec_list_params(query: ListQuery) -> ListLogsParamsView {
    ListLogsParamsView {
        page: Some(page_or_first(query.page)),
        per_page: Some(LOGS_PER_PAGE),
        include_totals: Some(true),
        q: text_of(query.q),
        sort: Some("date:-1"@),
    }
}

/// What to ask the upstream for: the page of the query, the query's
/// filter, newest events first.
pub fn list_params(query: &ListQuery) -> (params: ListLogsParams)
    ensures
        params@ == spec_list_params(*query),
{
    ListLogsParams {
        page: Some(
            match query.page {
                Some(n) => n,
                None => 0,
            },
        ),
        per_page: Some(LOGS_PER_PAGE),
        include_totals: Some(true),
        q: copy_of(&query.q),
        sort: Some(String::from_str("date:-1")),
    }
}

/// Chooses the view of the log events: the table alone for an in-page
/// update, the full page with the filter echoed otherwise. A failed fetch
/// shows no rows.
///
/// The page count is taken from the rows at hand, not from a total that the
/// upstream would report: with more events upstream than one page holds it
/// is too low. It is an approximation, kept until the total is passed in.
pub fn list<L>(query: ListQuery, logs: Fetched<Vec<L>>, headers: &HeaderMap) -> (view: Listing<L>)
    ensures
        view is Table <==> is_partial_update(*headers),
        view.rows() == spec_rows(logs),
        view.page() == page_or_first(query.page),
        view.total_pages() == shown_pages(spec_rows(logs).len(), LOGS_PER_PAGE as nat),
        view matches Listing::Full(page) ==> page.search_query@ == text_or_empty(query.q),
{
    let page = match query.page {
        Some(n) => n,
        None => 0,
    };
    let logs = rows_or_empty(logs);
    let pages = total_pages(logs.len(), LOGS_PER_PAGE);
    if is_htmx_request(headers) {
        Listing::Table(TableTemplate { logs, page, total_pages: pages })
    } else {
        Listing::Full(
            ListTemplate { logs, page, total_pages: pages, search_query: or_empty_text(query.q) },
        )
    }
}

} // verus!
