//! The users routes as flows: each request is a short run of upstream calls,
//! and after each call the flow says what comes next.
//!
//! A flow starts with [`start`]. Each [`Step`] but the last names the call to
//! make and holds what the flow keeps while it waits; handing the outcome of
//! the call to `resume` gives the next step. No call is made twice, and a
//! flow ends after three calls at most.

use crate::errors::{AppError, AppResult};
use crate::form_errors::{FormErrors, FormErrorsView};
use crate::routes::users::{
    create, create_form, created, delete, detail, get_logs, is_create_form, is_created,
    is_deleted, is_detail, is_listing, is_logs_inset, is_refreshed, is_toggle_request,
    is_toggled, list, list_params, logs_params, refreshed, spec_create_request,
    spec_list_params, spec_logs_params, spec_update_request, toggle_block, toggled, update,
    update_errors, updated, write_failure, CreateForm, CreateFormTemplate, CreatePlan, Created,
    DetailTemplate, ListQuery, Listing, LogsInset, TableTemplate, Toggled, UpdateForm,
    UpdatePlan,
};
use crate::templates::Response;
use crate::upstream::{
    CreateUserRequest, Fetched, GetUserLogsParams, ListUsersParams, UpdateUserRequest,
};
use axum::http::HeaderMap;
use vstd::prelude::*;

verus! {

/// A request to one of the users routes, parsed.
pub enum Request {
    List(ListQuery),
    Create(CreateForm),
    Get(String),
    Update(String, UpdateForm),
    Delete(String),
    ToggleBlock(String),
    Logs(String),
}

/// A user as a flow reads it: the record as the upstream gave it, and the
/// blocked flag read out of it.
pub struct UserRecord<U> {
    pub record: U,
    pub blocked: Option<bool>,
}

/// What a flow ends with.
pub enum Answer<U, L> {
    Users(Listing<U>),
    Table(TableTemplate<U>),
    Detail(DetailTemplate<U>),
    Form(CreateFormTemplate),
    Logs(LogsInset<L>),
    /// A response that needs no template.
    Send(Response),
}

/// A flow that waits for a listing of users.
pub enum AwaitUsers {
    /// For the users page: the connection names are fetched next.
    Listing { query: ListQuery },
    /// For the table after a write.
    Refresh,
}

/// A flow that waits for the connection names.
pub enum AwaitNames<U> {
    /// For the users page, with the users already fetched.
    Listing { query: ListQuery, users: Fetched<Vec<U>> },
    /// For a create form that goes back to the user.
    Form { form: CreateForm, errors: FormErrors },
}

/// A flow that waits for one user.
pub enum AwaitUser {
    /// For the user's page, with the errors to show on it.
    Detail { errors: FormErrors },
    /// For the user's blocked flag, which is to be flipped.
    Toggle { id: String },
}

/// A flow that waits for the outcome of a write.
pub enum AwaitWrite {
    /// Of the creation of a user, with the form kept in case it is refused.
    Create { form: CreateForm },
    /// Of the update of the user of this id.
    Update { id: String },
    /// Of the deletion of a user.
    Delete,
    /// Of the flip of the blocked flag of the user of this id.
    Toggle { id: String },
}

/// A flow that waits for a user's log events.
pub struct AwaitLogs;

/// One step of a flow: an upstream call to make, with the flow that waits
/// for its outcome, or the end.
pub enum Step<U, L> {
    /// List users: with the parameters given, or as the upstream lists them
    /// when none are given.
    ListUsers(Option<ListUsersParams>, AwaitUsers),
    /// List the connections and take their names.
    ConnectionNames(AwaitNames<U>),
    /// Fetch the user of this id.
    GetUser(String, AwaitUser),
    /// Create this user.
    CreateUser(CreateUserRequest, AwaitWrite),
    /// Change the user of this id as the request says.
    UpdateUser(String, UpdateUserRequest, AwaitWrite),
    /// Delete the user of this id.
    DeleteUser(String, AwaitWrite),
    /// List the log events of the user of this id.
    UserLogs(String, GetUserLogsParams, AwaitLogs),
    /// The flow is over: this is the answer.
    Done(AppResult<Answer<U, L>>),
}

impl AwaitUsers {
    /// The most calls that can follow the one waited for.
    pub open spec fn calls_after(self) -> nat {
        match self {
            AwaitUsers::Listing { .. } => 1,
            AwaitUsers::Refresh => 0,
        }
    }

    /// True when `next` is the step that follows `users`.
    pub open spec fn leads_to<U, L>(self, users: Fetched<Vec<U>>, next: Step<U, L>) -> bool {
        match self {
            AwaitUsers::Listing { query } => next matches Step::ConnectionNames(
                AwaitNames::Listing { query: kept, users: held },
            ) && kept == query && held == users,
            AwaitUsers::Refresh => next matches Step::Done(Ok(Answer::Table(table)))
                && is_refreshed(table, users),
        }
    }

    /// Goes on with the users that were fetched, or with the failure to
    /// fetch them: a failure is kept, to be shown as no rows.
    pub fn resume<U, L>(self, users: Fetched<Vec<U>>) -> (next: Step<U, L>)
        ensures
            self.leads_to(users, next),
            next.calls_left() <= self.calls_after(),
    {
        match self {
            AwaitUsers::Listing { query } => Step::ConnectionNames(
                AwaitNames::Listing { query, users },
            ),
            AwaitUsers::Refresh => Step::Done(Ok(Answer::Table(refreshed(users)))),
        }
    }
}

impl<U> AwaitNames<U> {
    /// True when `next` is the step that follows `names`.
    pub open spec fn leads_to<L>(
        self,
        names: Fetched<Vec<String>>,
        headers: HeaderMap,
        next: Step<U, L>,
    ) -> bool {
        match self {
            AwaitNames::Listing { query, users } => next matches Step::Done(
                Ok(Answer::Users(view)),
            ) && is_listing(view, query, users, names, headers),
            AwaitNames::Form { form, errors } => next matches Step::Done(Ok(Answer::Form(view)))
                && is_create_form(view, form, errors, names),
        }
    }

    /// Ends the flow with the view that needed the names. Names that could
    /// not be fetched are shown as none.
    pub fn resume<L>(self, names: Fetched<Vec<String>>, headers: &HeaderMap) -> (next: Step<U, L>)
        ensures
            self.leads_to(names, *headers, next),
            next.calls_left() == 0,
    {
        match self {
            AwaitNames::Listing { query, users } => Step::Done(
                Ok(Answer::Users(list(query, users, names, headers))),
            ),
            AwaitNames::Form { form, errors } => Step::Done(
                Ok(Answer::Form(create_form(form, errors, names))),
            ),
        }
    }
}

impl AwaitUser {
    /// The most calls that can follow the one waited for.
    pub open spec fn calls_after(self) -> nat {
        match self {
            AwaitUser::Detail { .. } => 0,
            AwaitUser::Toggle { .. } => 2,
        }
    }

    /// True when `next` is the step that follows `user`.
    pub open spec fn leads_to<U, L>(self, user: Fetched<UserRecord<U>>, next: Step<U, L>) -> bool {
        match self {
            AwaitUser::Detail { errors } => match next {
                Step::Done(Ok(Answer::Detail(page))) => is_detail(
                    Ok(page),
                    record_of(user),
                    errors@,
                ),
                Step::Done(Err(e)) => is_detail(
                    Err::<DetailTemplate<U>, _>(e),
                    record_of(user),
                    errors@,
                ),
                _ => false,
            },
            AwaitUser::Toggle { id } => match next {
                Step::UpdateUser(asked, request, AwaitWrite::Toggle { id: kept }) => {
                    &&& asked@ == id@
                    &&& kept@ == id@
                    &&& is_toggle_request(Ok(request), blocked_of(user))
                },
                Step::Done(Err(e)) => is_toggle_request(Err(e), blocked_of(user)),
                _ => false,
            },
        }
    }

    /// Goes on with the user that was fetched. A user that could not be
    /// fetched is not found, and the flow ends there.
    pub fn resume<U, L>(self, user: Fetched<UserRecord<U>>) -> (next: Step<U, L>)
        ensures
            self.leads_to(user, next),
            next.calls_left() <= self.calls_after(),
    {
        match self {
            AwaitUser::Detail { errors } => {
                let record = match user {
                    Ok(found) => Ok(found.record),
                    Err(reason) => Err(reason),
                };
                match detail(record, errors) {
                    Ok(page) => Step::Done(Ok(Answer::Detail(page))),
                    Err(e) => Step::Done(Err(e)),
                }
            },
            AwaitUser::Toggle { id } => {
                let blocked = match user {
                    Ok(found) => Ok(found.blocked),
                    Err(reason) => Err(reason),
                };
                match toggle_block(blocked) {
                    Ok(request) => {
                        let asked = id.clone();
                        Step::UpdateUser(asked, request, AwaitWrite::Toggle { id })
                    },
                    Err(e) => Step::Done(Err(e)),
                }
            },
        }
    }
}

/// The record of a user that was fetched.
pub open spec fn record_of<U>(user: Fetched<UserRecord<U>>) -> Fetched<U> {
    match user {
        Ok(found) => Ok(found.record),
        Err(reason) => Err(reason),
    }
}

/// The blocked flag of a user that was fetched.
pub open spec fn blocked_of<U>(user: Fetched<UserRecord<U>>) -> Fetched<Option<bool>> {
    match user {
        Ok(found) => Ok(found.blocked),
        Err(reason) => Err(reason),
    }
}

impl AwaitWrite {
    /// The most calls that can follow the one waited for.
    pub open spec fn calls_after(self) -> nat {
        match self {
            AwaitWrite::Create { .. } => 1,
            AwaitWrite::Update { .. } => 1,
            AwaitWrite::Delete => 0,
            AwaitWrite::Toggle { .. } => 1,
        }
    }

    /// True when `next` is the step that follows `outcome`.
    pub open spec fn leads_to<U, L>(
        self,
        outcome: Fetched<()>,
        headers: HeaderMap,
        next: Step<U, L>,
    ) -> bool {
        match self {
            AwaitWrite::Create { form } => match next {
                Step::ListUsers(None, AwaitUsers::Refresh) => is_created(
                    Created::Refresh,
                    form,
                    outcome,
                ),
                Step::ConnectionNames(AwaitNames::Form { form: kept, errors }) => is_created(
                    Created::Failed { form: kept, errors },
                    form,
                    outcome,
                ),
                _ => false,
            },
            AwaitWrite::Update { id } => next matches Step::GetUser(
                asked,
                AwaitUser::Detail { errors },
            ) && asked == id && errors@ == update_errors(outcome),
            AwaitWrite::Delete => match next {
                Step::Done(Ok(Answer::Send(response))) => is_deleted(Ok(response), outcome),
                Step::Done(Err(e)) => is_deleted(Err(e), outcome),
                _ => false,
            },
            AwaitWrite::Toggle { id } => match next {
                Step::ListUsers(None, AwaitUsers::Refresh) => is_toggled(
                    Ok(Toggled::Refresh),
                    id@,
                    outcome,
                    headers,
                ),
                Step::Done(Ok(Answer::Send(Response::Redirect(to)))) => is_toggled(
                    Ok(Toggled::Redirect(to)),
                    id@,
                    outcome,
                    headers,
                ),
                Step::Done(Err(e)) => is_toggled(Err(e), id@, outcome, headers),
                _ => false,
            },
        }
    }

    /// Goes on with the outcome of the write. A write that failed is never
    /// passed over: it ends the flow with an error, or it is shown with the
    /// form or on the user's page.
    pub fn resume<U, L>(self, outcome: Fetched<()>, headers: &HeaderMap) -> (next: Step<U, L>)
        ensures
            self.leads_to(outcome, *headers, next),
            next.calls_left() <= self.calls_after(),
    {
        match self {
            AwaitWrite::Create { form } => match created(form, outcome) {
                Created::Refresh => Step::ListUsers(None, AwaitUsers::Refresh),
                Created::Failed { form, errors } => Step::ConnectionNames(
                    AwaitNames::Form { form, errors },
                ),
            },
            AwaitWrite::Update { id } => Step::GetUser(
                id,
                AwaitUser::Detail { errors: updated(outcome) },
            ),
            AwaitWrite::Delete => match delete(outcome) {
                Ok(response) => Step::Done(Ok(Answer::Send(response))),
                Err(e) => Step::Done(Err(e)),
            },
            AwaitWrite::Toggle { id } => match toggled(id.as_str(), outcome, headers) {
                Ok(Toggled::Refresh) => Step::ListUsers(None, AwaitUsers::Refresh),
                Ok(Toggled::Redirect(to)) => Step::Done(
                    Ok(Answer::Send(Response::Redirect(to))),
                ),
                Err(e) => Step::Done(Err(e)),
            },
        }
    }
}

impl AwaitLogs {
    /// True when `next` is the step that follows `logs`.
    pub open spec fn leads_to<U, L>(self, logs: Fetched<Vec<L>>, next: Step<U, L>) -> bool {
        next matches Step::Done(Ok(Answer::Logs(inset))) && is_logs_inset(inset, logs)
    }

    /// Ends the flow with the log inset, or with the note that stands in
    /// for events that could not be fetched.
    pub fn resume<U, L>(self, logs: Fetched<Vec<L>>) -> (next: Step<U, L>)
        ensures
            self.leads_to(logs, next),
            next.calls_left() == 0,
    {
        Step::Done(Ok(Answer::Logs(get_logs(logs))))
    }
}

impl<U, L> Step<U, L> {
    /// The most upstream calls that the flow can still make from this
    /// step on, the one it names included.
    pub open spec fn calls_left(self) -> nat {
        match self {
            Step::ListUsers(_, waiting) => 1 + waiting.calls_after(),
            Step::ConnectionNames(_) => 1,
            Step::GetUser(_, waiting) => 1 + waiting.calls_after(),
            Step::CreateUser(_, waiting) => 1 + waiting.calls_after(),
            Step::UpdateUser(_, _, waiting) => 1 + waiting.calls_after(),
            Step::DeleteUser(_, waiting) => 1 + waiting.calls_after(),
            Step::UserLogs(_, _, _) => 1,
            Step::Done(_) => 0,
        }
    }
}

/// True when `step` is the first step of the flow for `request`.
pub open spec fn starts<U, L>(request: Request, step: Step<U, L>) -> bool {
    match request {
        Request::List(query) => step matches Step::ListUsers(
            Some(params),
            AwaitUsers::Listing { query: kept },
        ) && kept == query && params@ == spec_list_params(query),
        Request::Create(form) => match step {
            Step::CreateUser(request, AwaitWrite::Create { form: kept }) => {
                &&& form@.errors().is_empty()
                &&& kept == form
                &&& request@ == spec_create_request(form@)
            },
            Step::ConnectionNames(AwaitNames::Form { form: kept, errors }) => {
                &&& !form@.errors().is_empty()
                &&& kept == form
                &&& errors@ == form@.errors()
            },
            _ => false,
        },
        Request::Get(id) => step matches Step::GetUser(asked, AwaitUser::Detail { errors })
            && asked == id && errors@ == FormErrorsView::empty(),
        Request::Update(id, form) => match step {
            Step::UpdateUser(asked, request, AwaitWrite::Update { id: kept }) => {
                &&& form@.errors().is_empty()
                &&& asked@ == id@
                &&& kept@ == id@
                &&& request@ == spec_update_request(form@)
            },
            Step::GetUser(asked, AwaitUser::Detail { errors }) => {
                &&& !form@.errors().is_empty()
                &&& asked == id
                &&& errors@ == form@.errors()
            },
            _ => false,
        },
        Request::Delete(id) => step matches Step::DeleteUser(asked, AwaitWrite::Delete) && asked
            == id,
        Request::ToggleBlock(id) => step matches Step::GetUser(asked, AwaitUser::Toggle { id: kept })
            && asked@ == id@ && kept@ == id@,
        Request::Logs(id) => step matches Step::UserLogs(asked, params, AwaitLogs) && asked == id
            && params@ == spec_logs_params(),
    }
}

/// The first step of the flow for `request`. A form is validated here: a
/// form with errors is never sent upstream.
pub fn start<U, L>(request: Request) -> (step: Step<U, L>)
    ensures
        starts(request, step),
        step.calls_left() <= 3,
{
    match request {
        Request::List(query) => {
            let params = list_params(&query);
            Step::ListUsers(Some(params), AwaitUsers::Listing { query })
        },
        Request::Create(form) => match create(form) {
            CreatePlan::Reject { form, errors } => Step::ConnectionNames(
                AwaitNames::Form { form, errors },
            ),
            CreatePlan::Submit { request, form } => Step::CreateUser(
                request,
                AwaitWrite::Create { form },
            ),
        },
        Request::Get(id) => Step::GetUser(id, AwaitUser::Detail { errors: FormErrors::new() }),
        Request::Update(id, form) => match update(form) {
            UpdatePlan::Reject { errors } => Step::GetUser(id, AwaitUser::Detail { errors }),
            UpdatePlan::Submit { request } => {
                let asked = id.clone();
                Step::UpdateUser(asked, request, AwaitWrite::Update { id })
            },
        },
        Request::Delete(id) => Step::DeleteUser(id, AwaitWrite::Delete),
        Request::ToggleBlock(id) => {
            let asked = id.clone();
            Step::GetUser(asked, AwaitUser::Toggle { id })
        },
        Request::Logs(id) => Step::UserLogs(id, logs_params(), AwaitLogs),
    }
}

/// Reads degrade: whatever a listing of users came back with, the flow
/// goes on or ends with a view. It never ends with an error.
pub proof fn lemma_failed_users_fail_nothing<U, L>(
    waiting: AwaitUsers,
    users: Fetched<Vec<U>>,
    next: Step<U, L>,
)
    requires
        waiting.leads_to(users, next),
    ensures
        !(next matches Step::Done(Err(_))),
{
}

/// Whatever the fetch of the connection names came back with, the flow ends
/// with a view.
pub proof fn lemma_failed_names_fail_nothing<U, L>(
    waiting: AwaitNames<U>,
    names: Fetched<Vec<String>>,
    headers: HeaderMap,
    next: Step<U, L>,
)
    requires
        waiting.leads_to(names, headers, next),
    ensures
        next matches Step::Done(Ok(_)),
{
}

/// Whatever the fetch of a user's log events came back with, the flow ends
/// with the inset.
pub proof fn lemma_failed_logs_fail_nothing<U, L>(
    waiting: AwaitLogs,
    logs: Fetched<Vec<L>>,
    next: Step<U, L>,
)
    requires
        waiting.leads_to(logs, next),
    ensures
        next matches Step::Done(Ok(Answer::Logs(_))),
{
}

/// Writes do not degrade: after a write that failed for `reason`, the flow
/// ends with an upstream error that carries the reason, or goes on towards
/// a view whose form-level errors tell of it.
pub proof fn lemma_failed_write_is_told<U, L>(
    waiting: AwaitWrite,
    reason: String,
    headers: HeaderMap,
    next: Step<U, L>,
)
    requires
        waiting.leads_to(Err(reason), headers, next),
    ensures
        match next {
            Step::Done(Err(e)) => e == AppError::Auth0(reason),
            Step::ConnectionNames(AwaitNames::Form { errors, .. }) => errors@ == write_failure(
                "Failed to create user: "@,
                reason@,
            ),
            Step::GetUser(_, AwaitUser::Detail { errors }) => errors@ == write_failure(
                "Failed to update user: "@,
                reason@,
            ),
            _ => false,
        },
{
}

/// A form with errors is never sent: the flow of a create or an update
/// starts with the write only if validation found nothing.
pub proof fn lemma_invalid_form_is_not_sent<U, L>(request: Request, step: Step<U, L>)
    requires
        starts(request, step),
    ensures
        match request {
            Request::Create(form) => !form@.errors().is_empty() ==> !(step is CreateUser),
            Request::Update(_, form) => !form@.errors().is_empty() ==> !(step is UpdateUser),
            _ => !(step is CreateUser) && !(step is UpdateUser),
        },
{
}

} // verus!
