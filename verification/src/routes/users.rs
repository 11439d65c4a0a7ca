//! The users routes: listing, creation, detail, update, deletion, blocking
//! and the log inset.

use crate::errors::{AppError, AppResult};
use crate::form_errors::{FormErrors, FormErrorsView};
use crate::helpers::{
    htmx_target_is, is_htmx_request, is_partial_update, names_target, shown_pages, total_pages,
};
use crate::routes::connections::get_connection_names;
use crate::routes::logs::page_or_first;
use crate::templates::Response;
use crate::upstream::{
    copy_of, derive_name, full_name, non_empty, or_empty_text, present, rows_or_empty, spec_rows,
    text_of, text_or_empty, CreateUserRequest, CreateUserRequestView, Fetched, GetUserLogsParams,
    GetUserLogsParamsView, ListUsersParams, ListUsersParamsView, UpdateUserRequest,
    UpdateUserRequestView,
};
use crate::validation::{
    lemma_one_rule_row, lemma_submitted_at, lemma_three_rows, one_rule, submitted, table_view,
    validate, validation_result, values_view, violates, Check, FieldRules, FieldRulesView,
    FieldValue, FieldValueView, RuleView,
};
use axum::http::HeaderMap;
use vstd::prelude::*;

pub mod flow;

verus! {

/// The form that creates a user. E-mail, password and connection are
/// required; the rest may be left out or left empty.
#[derive(Debug)]
pub struct CreateForm {
    pub email: String,
    pub password: String,
    pub connection: String,
    pub username: Option<String>,
    pub given_name: Option<String>,
    pub family_name: Option<String>,
    pub verify_email: Option<String>,
}

pub struct CreateFormView {
    pub email: Seq<char>,
    pub password: Seq<char>,
    pub connection: Seq<char>,
    pub username: Option<Seq<char>>,
    pub given_name: Option<Seq<char>>,
    pub family_name: Option<Seq<char>>,
    pub verify_email: Option<Seq<char>>,
}

impl View for CreateForm {
    type V = CreateFormView;

    open spec fn view(&self) -> CreateFormView {
        CreateFormView {
            email: self.email@,
            password: self.password@,
            connection: self.connection@,
            username: text_of(self.username),
            given_name: text_of(self.given_name),
            family_name: text_of(self.family_name),
            verify_email: text_of(self.verify_email),
        }
    }
}

impl CreateFormView {
    /// The form with nothing filled in.
    pub open spec fn blank() -> CreateFormView {
        CreateFormView {
            email: Seq::empty(),
            password: Seq::empty(),
            connection: Seq::empty(),
            username: None,
            given_name: None,
            family_name: None,
            verify_email: None,
        }
    }

    /// The errors of the form: a message for an e-mail that is none, one
    /// for a password under eight characters, one for a missing connection,
    /// in that order, each present on its own account.
    pub open spec fn errors(self) -> FormErrorsView {
        FormErrorsView {
            entries: (if violates(Check::Email, self.email) {
                seq![("email"@, "Must be a valid email address"@)]
            } else {
                Seq::empty()
            }) + (if self.password.len() < 8 {
                seq![("password"@, "Password must be at least 8 characters"@)]
            } else {
                Seq::empty()
            }) + (if self.connection.len() == 0 {
                seq![("connection"@, "Connection is required"@)]
            } else {
                Seq::empty()
            }),
            base: Seq::empty(),
        }
    }

    /// The form as field values, under the names the rule table uses.
    pub open spec fn values(self) -> Seq<FieldValueView> {
        seq![
            FieldValueView { field: "email"@, value: Some(self.email) },
            FieldValueView { field: "password"@, value: Some(self.password) },
            FieldValueView { field: "connection"@, value: Some(self.connection) },
        ]
    }
}

/// The rule table of the create form.
pub open spec fn create_table() -> Seq<FieldRulesView> {
    seq![
        FieldRulesView {
            field: "email"@,
            optional: false,
            rules: seq![
                RuleView { check: Check::Email, message: "Must be a valid email address"@ },
            ],
        },
        FieldRulesView {
            field: "password"@,
            optional: false,
            rules: seq![
                RuleView {
                    check: Check::MinLength(8),
                    message: "Password must be at least 8 characters"@,
                },
            ],
        },
        FieldRulesView {
            field: "connection"@,
            optional: false,
            rules: seq![RuleView { check: Check::Required, message: "Connection is required"@ }],
        },
    ]
}

/// The rule table of the create form, see [`create_table`].
pub fn create_rules() -> (table: Vec<FieldRules>)
    ensures
        table_view(table@) == create_table(),
{
    let mut table: Vec<FieldRules> = Vec::new();
    table.push(one_rule("email", false, Check::Email, "Must be a valid email address"));
    table.push(
        one_rule("password", false, Check::MinLength(8), "Password must be at least 8 characters"),
    );
    table.push(one_rule("connection", false, Check::Required, "Connection is required"));
    assert(table_view(table@) =~= create_table());
    table
}

impl Default for CreateForm {
    fn default() -> (form: CreateForm)
        ensures
            form@ == CreateFormView::blank(),
    {
        CreateForm {
            email: String::new(),
            password: String::new(),
            connection: String::new(),
            username: None,
            given_name: None,
            family_name: None,
            verify_email: None,
        }
    }
}

impl Clone for CreateForm {
    fn clone(&self) -> (copy: CreateForm)
        ensures
            copy == *self,
    {
        CreateForm {
            email: self.email.clone(),
            password: self.password.clone(),
            connection: self.connection.clone(),
            username: copy_of(&self.username),
            given_name: copy_of(&self.given_name),
            family_name: copy_of(&self.family_name),
            verify_email: copy_of(&self.verify_email),
        }
    }
}

impl CreateForm {
    /// The fields that have rules, as the validator reads them.
    pub fn values(&self) -> (values: Vec<FieldValue>)
        ensures
            values_view(values@) == self@.values(),
    {
        let mut values: Vec<FieldValue> = Vec::new();
        values.push(FieldValue { field: String::from_str("email"), value: Some(self.email.clone()) });
        values.push(
            FieldValue { field: String::from_str("password"), value: Some(self.password.clone()) },
        );
        values.push(
            FieldValue {
                field: String::from_str("connection"),
                value: Some(self.connection.clone()),
            },
        );
        assert(values_view(values@) =~= self@.values());
        values
    }

    /// Validates the form. Every field is checked; the result is empty
    /// exactly when the form is good.
    pub fn validate(&self) -> (errors: FormErrors)
        ensures
            errors@ == self@.errors(),
            errors@ == validation_result(create_table(), self@.values()),
    {
        proof {
            lemma_create_errors(self@);
        }
        validate(&create_rules(), &self.values())
    }
}

/// What the rule table makes of a create form is what [`CreateFormView::errors`]
/// spells out.
pub proof fn lemma_create_errors(form: CreateFormView)
    ensures
        validation_result(create_table(), form.values()) == form.errors(),
{
    reveal_strlit("email");
    reveal_strlit("password");
    reveal_strlit("connection");
    let table = create_table();
    let values = form.values();
    assert("email"@.len() == 5 && "password"@.len() == 8 && "connection"@.len() == 10);
    lemma_submitted_at(values, 0);
    lemma_submitted_at(values, 1);
    lemma_submitted_at(values, 2);
    lemma_one_rule_row(table[0], form.email);
    lemma_one_rule_row(table[1], form.password);
    lemma_one_rule_row(table[2], form.connection);
    lemma_three_rows(table, values);
    assert(validation_result(table, values).entries =~= form.errors().entries);
}

/// The form that changes a user. Every field may be left out or left
/// empty; a field that is left empty is not changed.
#[derive(Debug)]
pub struct UpdateForm {
    pub email: Option<String>,
    pub username: Option<String>,
    pub given_name: Option<String>,
    pub family_name: Option<String>,
    pub nickname: Option<String>,
    pub phone_number: Option<String>,
    pub picture: Option<String>,
    pub password: Option<String>,
}

pub struct UpdateFormView {
    pub email: Option<Seq<char>>,
    pub username: Option<Seq<char>>,
    pub given_name: Option<Seq<char>>,
    pub family_name: Option<Seq<char>>,
    pub nickname: Option<Seq<char>>,
    pub phone_number: Option<Seq<char>>,
    pub picture: Option<Seq<char>>,
    pub password: Option<Seq<char>>,
}

impl View for UpdateForm {
    type V = UpdateFormView;

    open spec fn view(&self) -> UpdateFormView {
        UpdateFormView {
            email: text_of(self.email),
            username: text_of(self.username),
            given_name: text_of(self.given_name),
            family_name: text_of(self.family_name),
            nickname: text_of(self.nickname),
            phone_number: text_of(self.phone_number),
            picture: text_of(self.picture),
            password: text_of(self.password),
        }
    }
}

/// The error of an optional field with one rule: the rule's message when
/// the field holds a text that fails the rule, none when it holds nothing.
pub open spec fn optional_error(
    value: Option<Seq<char>>,
    check: Check,
    field: Seq<char>,
    message: Seq<char>,
) -> Seq<(Seq<char>, Seq<char>)> {
    match present(value) {
        Some(text) => if violates(check, text) {
            seq![(field, message)]
        } else {
            Seq::empty()
        },
        None => Seq::empty(),
    }
}

impl UpdateFormView {
    /// The errors of the form: a message for an e-mail that is none, one
    /// for a picture that is no URL, one for a password under eight
    /// characters, in that order, each only where the field was filled in.
    pub open spec fn errors(self) -> FormErrorsView {
        FormErrorsView {
            entries: optional_error(
                self.email,
                Check::Email,
                "email"@,
                "Must be a valid email address"@,
            ) + optional_error(self.picture, Check::Url, "picture"@, "Must be a valid URL"@)
                + optional_error(
                self.password,
                Check::MinLength(8),
                "password"@,
                "Password must be at least 8 characters"@,
            ),
            base: Seq::empty(),
        }
    }

    /// The form as field values, under the names the rule table uses.
    pub open spec fn values(self) -> Seq<FieldValueView> {
        seq![
            FieldValueView { field: "email"@, value: self.email },
            FieldValueView { field: "picture"@, value: self.picture },
            FieldValueView { field: "password"@, value: self.password },
        ]
    }
}

/// The rule table of the update form.
pub open spec fn update_table() -> Seq<FieldRulesView> {
    seq![
        FieldRulesView {
            field: "email"@,
            optional: true,
            rules: seq![
                RuleView { check: Check::Email, message: "Must be a valid email address"@ },
            ],
        },
        FieldRulesView {
            field: "picture"@,
            optional: true,
            rules: seq![RuleView { check: Check::Url, message: "Must be a valid URL"@ }],
        },
        FieldRulesView {
            field: "password"@,
            optional: true,
            rules: seq![
                RuleView {
                    check: Check::MinLength(8),
                    message: "Password must be at least 8 characters"@,
                },
            ],
        },
    ]
}

/// The rule table of the update form, see [`update_table`].
pub fn update_rules() -> (table: Vec<FieldRules>)
    ensures
        table_view(table@) == update_table(),
{
    let mut table: Vec<FieldRules> = Vec::new();
    table.push(one_rule("email", true, Check::Email, "Must be a valid email address"));
    table.push(one_rule("picture", true, Check::Url, "Must be a valid URL"));
    table.push(
        one_rule("password", true, Check::MinLength(8), "Password must be at least 8 characters"),
    );
    assert(table_view(table@) =~= update_table());
    table
}

impl UpdateForm {
    /// The fields that have rules, as the validator reads them.
    pub fn values(&self) -> (values: Vec<FieldValue>)
        ensures
            values_view(values@) == self@.values(),
    {
        let mut values: Vec<FieldValue> = Vec::new();
        values.push(FieldValue { field: String::from_str("email"), value: copy_of(&self.email) });
        values.push(
            FieldValue { field: String::from_str("picture"), value: copy_of(&self.picture) },
        );
        values.push(
            FieldValue { field: String::from_str("password"), value: copy_of(&self.password) },
        );
        assert(values_view(values@) =~= self@.values());
        values
    }

    /// Validates the form. Every field that was filled in is checked; the
    /// result is empty exactly when the form is good.
    pub fn validate(&self) -> (errors: FormErrors)
        ensures
            errors@ == self@.errors(),
            errors@ == validation_result(update_table(), self@.values()),
    {
        proof {
            lemma_update_errors(self@);
        }
        validate(&update_rules(), &self.values())
    }
}

/// What the rule table makes of an update form is what
/// [`UpdateFormView::errors`] spells out.
pub proof fn lemma_update_errors(form: UpdateFormView)
    ensures
        validation_result(update_table(), form.values()) == form.errors(),
{
    reveal_strlit("email");
    reveal_strlit("picture");
    reveal_strlit("password");
    let table = update_table();
    let values = form.values();
    assert("email"@.len() == 5 && "picture"@.len() == 7 && "password"@.len() == 8);
    lemma_submitted_at(values, 0);
    lemma_submitted_at(values, 1);
    lemma_submitted_at(values, 2);
    lemma_one_rule_row(table[0], submitted(values, "email"@));
    lemma_one_rule_row(table[1], submitted(values, "picture"@));
    lemma_one_rule_row(table[2], submitted(values, "password"@));
    lemma_three_rows(table, values);
    assert(validation_result(table, values).entries =~= form.errors().entries);
}

/// The request that a good create form becomes. E-mail, password and
/// connection go as they are. An optional text goes only if it is not
/// empty. The name is derived from the name parts. The e-mail is to be
/// verified exactly when the form says anything under that field.
pub open spec fn spec_create_request(form: CreateFormView) -> CreateUserRequestView {
    CreateUserRequestView {
        connection: form.connection,
        email: Some(form.email),
        password: Some(form.password),
        username: present(form.username),
        given_name: present(form.given_name),
        family_name: present(form.family_name),
        name: full_name(form.given_name, form.family_name),
        verify_email: Some(form.verify_email is Some),
    }
}

/// The request that a good update form becomes: each text that is not
/// empty, the name derived from the name parts, and nothing said of
/// blocking.
pub open spec fn spec_update_request(form: UpdateFormView) -> UpdateUserRequestView {
    UpdateUserRequestView {
        email: present(form.email),
        username: present(form.username),
        given_name: present(form.given_name),
        family_name: present(form.family_name),
        nickname: present(form.nickname),
        phone_number: present(form.phone_number),
        picture: present(form.picture),
        password: present(form.password),
        name: full_name(form.given_name, form.family_name),
        blocked: None,
    }
}

/// The request that flips a user's blocked flag and changes nothing else.
/// A user of whom the upstream says nothing counts as not blocked.
pub open spec fn spec_toggle_request(blocked: Option<bool>) -> UpdateUserRequestView {
    UpdateUserRequestView {
        email: None,
        username: None,
        given_name: None,
        family_name: None,
        nickname: None,
        phone_number: None,
        picture: None,
        password: None,
        name: None,
        blocked: Some(
            match blocked {
                Some(flag) => !flag,
                None => true,
            },
        ),
    }
}

/// Turns a create form into the request to send, see
/// [`spec_create_request`].
pub fn create_request(form: CreateForm) -> (request: CreateUserRequest)
    ensures
        request@ == spec_create_request(form@),
{
    let name = derive_name(&form.given_name, &form.family_name);
    CreateUserRequest {
        connection: form.connection,
        email: Some(form.email),
        password: Some(form.password),
        username: non_empty(form.username),
        given_name: non_empty(form.given_name),
        family_name: non_empty(form.family_name),
        name,
        verify_email: Some(form.verify_email.is_some()),
    }
}

/// Turns an update form into the request to send, see
/// [`spec_update_request`].
pub fn update_request(form: UpdateForm) -> (request: UpdateUserRequest)
    ensures
        request@ == spec_update_request(form@),
{
    let name = derive_name(&form.given_name, &form.family_name);
    UpdateUserRequest {
        email: non_empty(form.email),
        username: non_empty(form.username),
        given_name: non_empty(form.given_name),
        family_name: non_empty(form.family_name),
        nickname: non_empty(form.nickname),
        phone_number: non_empty(form.phone_number),
        picture: non_empty(form.picture),
        password: non_empty(form.password),
        name,
        blocked: None,
    }
}

/// A create form whose optional fields are all empty or left out becomes a
/// request from which each of them, and the name, is left out altogether.
pub proof fn lemma_empty_options_are_left_out(form: CreateFormView)
    requires
        present(form.username) is None,
        present(form.given_name) is None,
        present(form.family_name) is None,
    ensures
        spec_create_request(form).username is None,
        spec_create_request(form).given_name is None,
        spec_create_request(form).family_name is None,
        spec_create_request(form).name is None,
{
}

/// No request carries an empty text in an optional field.
pub proof fn lemma_requests_carry_no_empty_text(create: CreateFormView, update: UpdateFormView)
    ensures
        spec_create_request(create).username != Some(Seq::<char>::empty()),
        spec_create_request(create).given_name != Some(Seq::<char>::empty()),
        spec_create_request(create).family_name != Some(Seq::<char>::empty()),
        spec_create_request(create).name != Some(Seq::<char>::empty()),
        spec_update_request(update).email != Some(Seq::<char>::empty()),
        spec_update_request(update).username != Some(Seq::<char>::empty()),
        spec_update_request(update).given_name != Some(Seq::<char>::empty()),
        spec_update_request(update).family_name != Some(Seq::<char>::empty()),
        spec_update_request(update).nickname != Some(Seq::<char>::empty()),
        spec_update_request(update).phone_number != Some(Seq::<char>::empty()),
        spec_update_request(update).picture != Some(Seq::<char>::empty()),
        spec_update_request(update).password != Some(Seq::<char>::empty()),
        spec_update_request(update).name != Some(Seq::<char>::empty()),
{
    assert forall|g: Seq<char>, f: Seq<char>| (#[trigger] (g + seq![' '] + f)).len() > 0 by {}
}

/// How many users a page holds.
pub const USERS_PER_PAGE: u32 = 20;

/// How many log events the inset on a user's page holds.
pub const USER_LOGS_SHOWN: u32 = 10;

/// The region of the users page that holds the table.
pub const USERS_TABLE: &'static str = "users-table";

/// The query of the user listing. A missing page is the first page; a
/// missing filter is no filter.
#[derive(Debug)]
pub struct ListQuery {
    pub page: Option<u32>,
    pub q: Option<String>,
    pub connection: Option<String>,
}

impl Default for ListQuery {
    fn default() -> (query: ListQuery)
        ensures
            query.page is None,
            query.q is None,
            query.connection is None,
    {
        ListQuery { page: None, q: None, connection: None }
    }
}

/// The full users page: the table, the filters as they were asked for, and
/// a blank form for a new user.
pub struct ListTemplate<U> {
    pub users: Vec<U>,
    pub page: u32,
    pub total_pages: u32,
    pub search_query: String,
    pub connection: String,
    pub connections: Vec<String>,
    pub form: CreateForm,
    pub errors: FormErrors,
}

/// The users table alone, for an in-page update.
pub struct TableTemplate<U> {
    pub users: Vec<U>,
    pub page: u32,
    pub total_pages: u32,
}

/// A user's page, with the errors of an update that did not go through.
pub struct DetailTemplate<U> {
    pub user: U,
    pub errors: FormErrors,
}

/// The form for a new user as it was submitted, with what is wrong with it.
pub struct CreateFormTemplate {
    pub form: CreateForm,
    pub connections: Vec<String>,
    pub errors: FormErrors,
}

/// The log inset on a user's page.
pub struct LogsTemplate<L> {
    pub logs: Vec<L>,
}

/// What the user listing renders.
pub enum Listing<U> {
    Full(ListTemplate<U>),
    Table(TableTemplate<U>),
}

impl<U> Listing<U> {
    /// The rows shown, whichever the template.
    pub open spec fn rows(self) -> Seq<U> {
        match self {
            Listing::Full(page) => page.users@,
            Listing::Table(table) => table.users@,
        }
    }

    /// The page shown, counted from zero.
    pub open spec fn page(self) -> u32 {
        match self {
            Listing::Full(page) => page.page,
            Listing::Table(table) => table.page,
        }
    }

    /// The page count shown.
    pub open spec fn total_pages(self) -> u32 {
        match self {
            Listing::Full(page) => page.total_pages,
            Listing::Table(table) => table.total_pages,
        }
    }
}

/// What the listing asks the upstream for.
pub open spec fn spec_list_params(query: ListQuery) -> ListUsersParamsView {
    ListUsersParamsView {
        page: Some(page_or_first(query.page)),
        per_page: Some(USERS_PER_PAGE),
        include_totals: Some(true),
        q: text_of(query.q),
        connection: text_of(query.connection),
        search_engine: Some("v3"@),
        sort: Some("created_at:-1"@),
    }
}

/// What to ask the upstream for: the page of the query, the query's
/// filters, newest users first.
pub fn list_params(query: &ListQuery) -> (params: ListUsersParams)
    ensures
        params@ == spec_list_params(*query),
{
    ListUsersParams {
        page: Some(
            match query.page {
                Some(n) => n,
                None => 0,
            },
        ),
        per_page: Some(USERS_PER_PAGE),
        include_totals: Some(true),
        q: copy_of(&query.q),
        connection: copy_of(&query.connection),
        search_engine: Some(String::from_str("v3")),
        sort: Some(String::from_str("created_at:-1")),
    }
}

/// True when `view` is the listing for `query`, given what the fetches of
/// users and of connection names came back with: the table alone for an
/// in-page update; otherwise the full page, with the filters echoed, the
/// connections to choose from and a blank form without errors.
pub open spec fn is_listing<U>(
    view: Listing<U>,
    query: ListQuery,
    users: Fetched<Vec<U>>,
    connections: Fetched<Vec<String>>,
    headers: HeaderMap,
) -> bool {
    &&& view is Table <==> is_partial_update(headers)
    &&& view.rows() == spec_rows(users)
    &&& view.page() == page_or_first(query.page)
    &&& view.total_pages() == shown_pages(spec_rows(users).len(), USERS_PER_PAGE as nat)
    &&& view matches Listing::Full(page) ==> {
        &&& page.search_query@ == text_or_empty(query.q)
        &&& page.connection@ == text_or_empty(query.connection)
        &&& page.connections@ == spec_rows(connections)
        &&& page.form@ == CreateFormView::blank()
        &&& page.errors@ == FormErrorsView::empty()
    }
}

/// Chooses the view of the users: the table alone for an in-page update;
/// otherwise the full page, with the filters echoed, the connections to
/// choose from and a blank form without errors. A failed fetch, of users or
/// of connections, shows none of them and fails nothing.
///
/// The page count is taken from the rows at hand, not from a total that the
/// upstream would report: with more users upstream than one page holds it
/// is too low. It is an approximation, kept until the total is passed in.
pub fn list<U>(
    query: ListQuery,
    users: Fetched<Vec<U>>,
    connections: Fetched<Vec<String>>,
    headers: &HeaderMap,
) -> (view: Listing<U>)
    ensures
        is_listing(view, query, users, connections, *headers),
{
    let page = match query.page {
        Some(n) => n,
        None => 0,
    };
    let users = rows_or_empty(users);
    let pages = total_pages(users.len(), USERS_PER_PAGE);
    let connections = get_connection_names(connections);
    if is_htmx_request(headers) {
        Listing::Table(TableTemplate { users, page, total_pages: pages })
    } else {
        Listing::Full(
            ListTemplate {
                users,
                page,
                total_pages: pages,
                search_query: or_empty_text(query.q),
                connection: or_empty_text(query.connection),
                connections,
                form: CreateForm::default(),
                errors: FormErrors::new(),
            },
        )
    }
}

/// What follows the validation of a create form.
pub enum CreatePlan {
    /// The form has errors. It goes back to the user as it was submitted,
    /// with the errors, and nothing is sent upstream.
    Reject { form: CreateForm, errors: FormErrors },
    /// The form is good. The request is to be sent; the form is kept in
    /// case the upstream refuses it.
    Submit { request: CreateUserRequest, form: CreateForm },
}

/// True when `plan` is what follows for `form` with `errors` found in it.
pub open spec fn is_create_plan(plan: CreatePlan, form: CreateForm, errors: FormErrorsView) -> bool {
    match plan {
        CreatePlan::Reject { form: kept, errors: found } => {
            &&& !errors.is_empty()
            &&& kept == form
            &&& found@ == errors
        },
        CreatePlan::Submit { request, form: kept } => {
            &&& errors.is_empty()
            &&& kept == form
            &&& request@ == spec_create_request(form@)
        },
    }
}

/// Decides what follows for a create form, given the errors that
/// validation found in it: with any error the form is rejected, unchanged;
/// with none it is turned into a request.
pub fn create_checked(form: CreateForm, errors: FormErrors) -> (plan: CreatePlan)
    ensures
        is_create_plan(plan, form, errors@),
{
    if !errors.is_empty() {
        return CreatePlan::Reject { form, errors };
    }
    let snapshot = form.clone();
    CreatePlan::Submit { request: create_request(form), form: snapshot }
}

/// Validates a create form and decides what follows, see
/// [`create_checked`] and [`CreateFormView::errors`].
pub fn create(form: CreateForm) -> (plan: CreatePlan)
    ensures
        is_create_plan(plan, form, form@.errors()),
{
    let errors = form.validate();
    create_checked(form, errors)
}

/// True when `view` hands `form` back with `errors`.
pub open spec fn is_create_form(
    view: CreateFormTemplate,
    form: CreateForm,
    errors: FormErrors,
    connections: Fetched<Vec<String>>,
) -> bool {
    &&& view.form == form
    &&& view.errors == errors
    &&& view.connections@ == spec_rows(connections)
}

/// The view that hands a create form back to the user: the form as it was
/// submitted, the errors, and the connections to choose from.
pub fn create_form(form: CreateForm, errors: FormErrors, connections: Fetched<Vec<String>>) -> (view:
    CreateFormTemplate)
    ensures
        is_create_form(view, form, errors, connections),
{
    CreateFormTemplate { form, connections: get_connection_names(connections), errors }
}

/// What follows the upstream's answer to a create request.
pub enum Created {
    /// The user was created: the table is fetched anew and shown.
    Refresh,
    /// The upstream refused. The form goes back to the user as it was
    /// submitted, with the refusal as a form-level error.
    Failed { form: CreateForm, errors: FormErrors },
}

/// The form-level error set that tells of a failed write.
pub open spec fn write_failure(what: Seq<char>, reason: Seq<char>) -> FormErrorsView {
    FormErrorsView::empty().add_base(what + reason)
}

/// True when `next` is what follows `outcome` for the form that was sent.
pub open spec fn is_created(next: Created, form: CreateForm, outcome: Result<(), String>) -> bool {
    match outcome {
        Ok(_) => next is Refresh,
        Err(reason) => next matches Created::Failed { form: kept, errors } && kept == form
            && errors@ == write_failure("Failed to create user: "@, reason@),
    }
}

/// Decides what follows the upstream's answer to a create request. A
/// failure is never swallowed: it is shown with the form.
pub fn created(form: CreateForm, outcome: Result<(), String>) -> (next: Created)
    ensures
        is_created(next, form, outcome),
{
    match outcome {
        Ok(_) => Created::Refresh,
        Err(reason) => {
            let mut errors = FormErrors::new();
            let message = String::from_str("Failed to create user: ").concat(reason.as_str());
            errors.add_base(message.as_str());
            Created::Failed { form, errors }
        },
    }
}

/// True when `view` is the table shown after a write.
pub open spec fn is_refreshed<U>(view: TableTemplate<U>, users: Fetched<Vec<U>>) -> bool {
    &&& view.users@ == spec_rows(users)
    &&& view.page == 0
    &&& view.total_pages == 1
}

/// The table shown after a write: the users fetched anew, or none when that
/// fetch failed, as the first and only page.
pub fn refreshed<U>(users: Fetched<Vec<U>>) -> (view: TableTemplate<U>)
    ensures
        is_refreshed(view, users),
{
    TableTemplate { users: rows_or_empty(users), page: 0, total_pages: 1 }
}

/// True when `view` is a user's page for what the fetch of the user came
/// back with, showing `errors`.
pub open spec fn is_detail<U>(
    view: AppResult<DetailTemplate<U>>,
    user: Fetched<U>,
    errors: FormErrorsView,
) -> bool {
    match user {
        Ok(record) => view matches Ok(page) && page.user == record && page.errors@ == errors,
        Err(_) => view matches Err(e) && e == AppError::NotFound,
    }
}

/// The view of a user with `errors` to show. A user that cannot be fetched
/// is not found.
pub fn detail<U>(user: Fetched<U>, errors: FormErrors) -> (view: AppResult<DetailTemplate<U>>)
    ensures
        is_detail(view, user, errors@),
        view matches Ok(page) ==> page.errors == errors,
{
    match user {
        Ok(record) => Ok(DetailTemplate { user: record, errors }),
        Err(_) => Err(AppError::NotFound),
    }
}

/// The view of a user, without errors. A user that cannot be fetched is not
/// found.
pub fn get<U>(user: Fetched<U>) -> (view: AppResult<DetailTemplate<U>>)
    ensures
        is_detail(view, user, FormErrorsView::empty()),
{
    detail(user, FormErrors::new())
}

/// What follows the validation of an update form.
pub enum UpdatePlan {
    /// The form has errors. The user is shown again with the errors, and
    /// nothing is sent upstream.
    Reject { errors: FormErrors },
    /// The form is good. The request is to be sent.
    Submit { request: UpdateUserRequest },
}

/// True when `plan` is what follows for `form` with `errors` found in it.
pub open spec fn is_update_plan(plan: UpdatePlan, form: UpdateForm, errors: FormErrorsView) -> bool {
    match plan {
        UpdatePlan::Reject { errors: found } => !errors.is_empty() && found@ == errors,
        UpdatePlan::Submit { request } => errors.is_empty() && request@ == spec_update_request(
            form@,
        ),
    }
}

/// Decides what follows for an update form, given the errors that
/// validation found in it: with any error the form is rejected; with none
/// it is turned into a request.
pub fn update_checked(form: UpdateForm, errors: FormErrors) -> (plan: UpdatePlan)
    ensures
        is_update_plan(plan, form, errors@),
{
    if !errors.is_empty() {
        return UpdatePlan::Reject { errors };
    }
    UpdatePlan::Submit { request: update_request(form) }
}

/// Validates an update form and decides what follows, see
/// [`update_checked`] and [`UpdateFormView::errors`].
pub fn update(form: UpdateForm) -> (plan: UpdatePlan)
    ensures
        is_update_plan(plan, form, form@.errors()),
{
    let errors = form.validate();
    update_checked(form, errors)
}

/// The errors that tell of `outcome` on the user's page.
pub open spec fn update_errors(outcome: Result<(), String>) -> FormErrorsView {
    match outcome {
        Ok(_) => FormErrorsView::empty(),
        Err(reason) => write_failure("Failed to update user: "@, reason@),
    }
}

/// The errors to show on the user's page after the upstream's answer to an
/// update request: none when it went through, the refusal as a form-level
/// error when it did not. Either way the user is fetched anew and shown,
/// see [`detail`].
pub fn updated(outcome: Result<(), String>) -> (errors: FormErrors)
    ensures
        errors@ == update_errors(outcome),
{
    let mut errors = FormErrors::new();
    match outcome {
        Ok(_) => {},
        Err(reason) => {
            let message = String::from_str("Failed to update user: ").concat(reason.as_str());
            errors.add_base(message.as_str());
        },
    }
    errors
}

/// True when `response` is what follows `outcome` of a delete request.
pub open spec fn is_deleted(response: AppResult<Response>, outcome: Result<(), String>) -> bool {
    match outcome {
        Ok(_) => response matches Ok(Response::Redirect(to)) && to@ == "/users"@,
        Err(reason) => response matches Err(AppError::Auth0(text)) && text == reason,
    }
}

/// What follows the upstream's answer to a delete request: back to the
/// listing when it went through, an upstream error with the reason when it
/// did not.
pub fn delete(outcome: Result<(), String>) -> (response: AppResult<Response>)
    ensures
        is_deleted(response, outcome),
{
    match outcome {
        Ok(_) => Ok(Response::Redirect(String::from_str("/users"))),
        Err(reason) => Err(AppError::Auth0(reason)),
    }
}

/// True when `request` is what to send for the user that was fetched.
pub open spec fn is_toggle_request(
    request: AppResult<UpdateUserRequest>,
    user: Fetched<Option<bool>>,
) -> bool {
    match user {
        Ok(blocked) => request matches Ok(r) && r@ == spec_toggle_request(blocked),
        Err(_) => request matches Err(e) && e == AppError::NotFound,
    }
}

/// The request that flips the blocked flag of the user that was fetched,
/// see [`spec_toggle_request`]. `user` holds the flag as the upstream has
/// it. A user that cannot be fetched is not found.
pub fn toggle_block(user: Fetched<Option<bool>>) -> (request: AppResult<UpdateUserRequest>)
    ensures
        is_toggle_request(request, user),
{
    let blocked = match user {
        Ok(blocked) => blocked,
        Err(_) => {
            return Err(AppError::NotFound);
        },
    };
    let currently_blocked = match blocked {
        Some(flag) => flag,
        None => false,
    };
    Ok(
        UpdateUserRequest {
            email: None,
            username: None,
            given_name: None,
            family_name: None,
            nickname: None,
            phone_number: None,
            picture: None,
            password: None,
            name: None,
            blocked: Some(!currently_blocked),
        },
    )
}

/// What follows a blocked flag that was flipped.
pub enum Toggled {
    /// The request came from the users table: the table is fetched anew
    /// and shown, see [`refreshed`].
    Refresh,
    /// The request came from elsewhere: the browser is sent to the user's
    /// page.
    Redirect(String),
}

/// True when `next` is what follows `outcome` for user `id`.
pub open spec fn is_toggled(
    next: AppResult<Toggled>,
    id: Seq<char>,
    outcome: Result<(), String>,
    headers: HeaderMap,
) -> bool {
    match outcome {
        Err(reason) => next matches Err(AppError::Auth0(text)) && text == reason,
        Ok(_) => if names_target(headers, USERS_TABLE@) {
            next matches Ok(Toggled::Refresh)
        } else {
            next matches Ok(Toggled::Redirect(to)) && to@ == "/users/"@ + id
        },
    }
}

/// Decides what follows the upstream's answer to the request that flips
/// the blocked flag of user `id`. A refusal is an upstream error with the
/// reason. Else the table is refreshed when the request names it as its
/// target, and the browser is sent to the user's page when it does not.
pub fn toggled(id: &str, outcome: Result<(), String>, headers: &HeaderMap) -> (next: AppResult<
    Toggled,
>)
    ensures
        is_toggled(next, id@, outcome, *headers),
{
    match outcome {
        Err(reason) => Err(AppError::Auth0(reason)),
        Ok(_) => {
            if htmx_target_is(headers, USERS_TABLE) {
                Ok(Toggled::Refresh)
            } else {
                Ok(Toggled::Redirect(String::from_str("/users/").concat(id)))
            }
        },
    }
}

/// The log inset of a user's page.
pub enum LogsInset<L> {
    /// The user's latest log events.
    Logs(LogsTemplate<L>),
    /// A note in place of the events, where they could not be fetched.
    Unavailable(&'static str),
}

/// What the inset asks the upstream for.
pub open spec fn spec_logs_params() -> GetUserLogsParamsView {
    GetUserLogsParamsView {
        page: Some(0u32),
        per_page: Some(USER_LOGS_SHOWN),
        sort: Some("date:-1"@),
        include_totals: Some(false),
    }
}

/// What to ask the upstream for: the user's latest few events, newest
/// first.
pub fn logs_params() -> (params: GetUserLogsParams)
    ensures
        params@ == spec_logs_params(),
{
    GetUserLogsParams {
        page: Some(0),
        per_page: Some(USER_LOGS_SHOWN),
        sort: Some(String::from_str("date:-1")),
        include_totals: Some(false),
    }
}

/// True when `inset` is the log inset for what the fetch came back with.
pub open spec fn is_logs_inset<L>(inset: LogsInset<L>, logs: Fetched<Vec<L>>) -> bool {
    match logs {
        Ok(events) => inset matches LogsInset::Logs(view) && view.logs == events,
        Err(_) => inset matches LogsInset::Unavailable(note) && note@
            == "<p class='text-muted'>Unable to load logs</p>"@,
    }
}

/// The log inset for what the upstream returned. The inset is a courtesy:
/// where the events cannot be fetched a short note stands in their place
/// and the request still succeeds.
pub fn get_logs<L>(logs: Fetched<Vec<L>>) -> (inset: LogsInset<L>)
    ensures
        is_logs_inset(inset, logs),
{
    match logs {
        Ok(events) => LogsInset::Logs(LogsTemplate { logs: events }),
        Err(_) => LogsInset::Unavailable("<p class='text-muted'>Unable to load logs</p>"),
    }
}

} // verus!
