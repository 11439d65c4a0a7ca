//! The boundary to the upstream management API: the requests this console
//! sends, as plain values, and how it reads what comes back.
//!
//! The library never calls the API. It says what to send; the program
//! around it sends it and hands back the outcome. A field that is `None` is
//! left out of the request: the API tells a field that is left out from one
//! that is sent empty.

use vstd::prelude::*;

verus! {

/// What an upstream call came back with: the value, or the error in words.
pub type Fetched<T> = Result<T, String>;

/// The text of an optional string.
pub open spec fn text_of(value: Option<String>) -> Option<Seq<char>> {
    match value {
        Some(text) => Some(text@),
        None => None,
    }
}

/// An optional text with the empty text taken for no text at all.
pub open spec fn present(value: Option<Seq<char>>) -> Option<Seq<char>> {
    match value {
        Some(text) => if text.len() == 0 {
            None
        } else {
            Some(text)
        },
        None => None,
    }
}

/// The text of an optional string, or the empty text.
pub open spec fn text_or_empty(value: Option<String>) -> Seq<char> {
    match value {
        Some(text) => text@,
        None => Seq::empty(),
    }
}

/// The display name made of a given and a family name: both, with a space
/// between, where both are present; else the one that is; else none. An
/// empty part counts as absent.
pub open spec fn full_name(given: Option<Seq<char>>, family: Option<Seq<char>>) -> Option<
    Seq<char>,
> {
    match (present(given), present(family)) {
        (Some(g), Some(f)) => Some(g + seq![' '] + f),
        (Some(g), None) => Some(g),
        (None, Some(f)) => Some(f),
        (None, None) => None,
    }
}

/// Drops an empty text: what is sent upstream is either a text with
/// something in it or nothing.
pub fn non_empty(value: Option<String>) -> (kept: Option<String>)
    ensures
        text_of(kept) == present(text_of(value)),
{
    match value {
        Some(text) => if text.as_str().is_empty() {
            None
        } else {
            Some(text)
        },
        None => None,
    }
}

/// A copy of an optional string.
pub fn copy_of(value: &Option<String>) -> (copy: Option<String>)
    ensures
        copy == *value,
{
    match value {
        Some(text) => Some(text.clone()),
        None => None,
    }
}

/// The text of an optional string, or the empty string.
pub fn or_empty_text(value: Option<String>) -> (text: String)
    ensures
        text@ == text_or_empty(value),
{
    match value {
        Some(text) => text,
        None => String::new(),
    }
}

/// Derives a display name from its parts, see [`full_name`].
pub fn derive_name(given: &Option<String>, family: &Option<String>) -> (name: Option<String>)
    ensures
        text_of(name) == full_name(text_of(*given), text_of(*family)),
{
    proof {
        reveal_strlit(" ");
        assert(" "@ =~= seq![' ']);
    }
    let given = non_empty(copy_of(given));
    let family = non_empty(copy_of(family));
    match (given, family) {
        (Some(g), Some(f)) => Some(g.concat(" ").concat(f.as_str())),
        (Some(g), None) => Some(g),
        (None, Some(f)) => Some(f),
        (None, None) => None,
    }
}

/// The rows of a listing: what the upstream returned, or no rows when the
/// call failed. A failed read never fails the request.
pub fn rows_or_empty<T>(fetched: Fetched<Vec<T>>) -> (rows: Vec<T>)
    ensures
        rows@ == spec_rows(fetched),
{
    match fetched {
        Ok(rows) => rows,
        Err(_) => Vec::new(),
    }
}

/// The rows that a listing shows for what the upstream call came back with.
pub open spec fn spec_rows<T>(fetched: Fetched<Vec<T>>) -> Seq<T> {
    match fetched {
        Ok(rows) => rows@,
        Err(_) => Seq::empty(),
    }
}

/// The four cases of name derivation, for parts that are not empty.
pub proof fn lemma_name_derivation(given: Seq<char>, family: Seq<char>)
    requires
        given.len() > 0,
        family.len() > 0,
    ensures
        full_name(Some(given), None) == Some(given),
        full_name(None, Some(family)) == Some(family),
        full_name(Some(given), Some(family)) == Some(given + seq![' '] + family),
        full_name(None, None) == None::<Seq<char>>,
{
}

/// An empty part is as good as absent: the name is derived from what is
/// left, and from nothing comes no name.
pub proof fn lemma_empty_parts_are_absent(part: Option<Seq<char>>)
    ensures
        full_name(Some(Seq::empty()), part) == full_name(None, part),
        full_name(part, Some(Seq::empty())) == full_name(part, None),
        full_name(Some(Seq::empty()), Some(Seq::empty())) == None::<Seq<char>>,
{
}

/// Parameters of a user listing.
pub struct ListUsersParams {
    pub page: Option<u32>,
    pub per_page: Option<u32>,
    pub include_totals: Option<bool>,
    pub q: Option<String>,
    pub connection: Option<String>,
    pub search_engine: Option<String>,
    pub sort: Option<String>,
}

pub struct ListUsersParamsView {
    pub page: Option<u32>,
    pub per_page: Option<u32>,
    pub include_totals: Option<bool>,
    pub q: Option<Seq<char>>,
    pub connection: Option<Seq<char>>,
    pub search_engine: Option<Seq<char>>,
    pub sort: Option<Seq<char>>,
}

impl View for ListUsersParams {
    type V = ListUsersParamsView;

    open spec fn view(&self) -> ListUsersParamsView {
        ListUsersParamsView {
            page: self.page,
            per_page: self.per_page,
            include_totals: self.include_totals,
            q: text_of(self.q),
            connection: text_of(self.connection),
            search_engine: text_of(self.search_engine),
            sort: text_of(self.sort),
        }
    }
}

/// Parameters of a listing that takes a page window and nothing else:
/// connections and applications.
pub struct ListParams {
    pub page: Option<u32>,
    pub per_page: Option<u32>,
    pub include_totals: Option<bool>,
}

/// Parameters of a listing of audit log events.
pub struct ListLogsParams {
    pub page: Option<u32>,
    pub per_page: Option<u32>,
    pub include_totals: Option<bool>,
    pub q: Option<String>,
    pub sort: Option<String>,
}

pub struct ListLogsParamsView {
    pub page: Option<u32>,
    pub per_page: Option<u32>,
    pub include_totals: Option<bool>,
    pub q: Option<Seq<char>>,
    pub sort: Option<Seq<char>>,
}

impl View for ListLogsParams {
    type V = ListLogsParamsView;

    open spec fn view(&self) -> ListLogsParamsView {
        ListLogsParamsView {
            page: self.page,
            per_page: self.per_page,
            include_totals: self.include_totals,
            q: text_of(self.q),
            sort: text_of(self.sort),
        }
    }
}

/// Parameters of a listing of one user's log events.
pub struct GetUserLogsParams {
    pub page: Option<u32>,
    pub per_page: Option<u32>,
    pub sort: Option<String>,
    pub include_totals: Option<bool>,
}

pub struct GetUserLogsParamsView {
    pub page: Option<u32>,
    pub per_page: Option<u32>,
    pub sort: Option<Seq<char>>,
    pub include_totals: Option<bool>,
}

impl View for GetUserLogsParams {
    type V = GetUserLogsParamsView;

    open spec fn view(&self) -> GetUserLogsParamsView {
        GetUserLogsParamsView {
            page: self.page,
            per_page: self.per_page,
            sort: text_of(self.sort),
            include_totals: self.include_totals,
        }
    }
}

/// A request to create a user.
pub struct CreateUserRequest {
    pub connection: String,
    pub email: Option<String>,
    pub password: Option<String>,
    pub username: Option<String>,
    pub given_name: Option<String>,
    pub family_name: Option<String>,
    pub name: Option<String>,
    pub verify_email: Option<bool>,
}

pub struct CreateUserRequestView {
    pub connection: Seq<char>,
    pub email: Option<Seq<char>>,
    pub password: Option<Seq<char>>,
    pub username: Option<Seq<char>>,
    pub given_name: Option<Seq<char>>,
    pub family_name: Option<Seq<char>>,
    pub name: Option<Seq<char>>,
    pub verify_email: Option<bool>,
}

impl View for CreateUserRequest {
    type V = CreateUserRequestView;

    open spec fn view(&self) -> CreateUserRequestView {
        CreateUserRequestView {
            connection: self.connection@,
            email: text_of(self.email),
            password: text_of(self.password),
            username: text_of(self.username),
            given_name: text_of(self.given_name),
            family_name: text_of(self.family_name),
            name: text_of(self.name),
            verify_email: self.verify_email,
        }
    }
}

/// A request to change a user. Only the fields that are set are changed.
pub struct UpdateUserRequest {
    pub email: Option<String>,
    pub username: Option<String>,
    pub given_name: Option<String>,
    pub family_name: Option<String>,
    pub nickname: Option<String>,
    pub phone_number: Option<String>,
    pub picture: Option<String>,
    pub password: Option<String>,
    pub name: Option<String>,
    pub blocked: Option<bool>,
}

pub struct UpdateUserRequestView {
    pub email: Option<Seq<char>>,
    pub username: Option<Seq<char>>,
    pub given_name: Option<Seq<char>>,
    pub family_name: Option<Seq<char>>,
    pub nickname: Option<Seq<char>>,
    pub phone_number: Option<Seq<char>>,
    pub picture: Option<Seq<char>>,
    pub password: Option<Seq<char>>,
    pub name: Option<Seq<char>>,
    pub blocked: Option<bool>,
}

impl View for UpdateUserRequest {
    type V = UpdateUserRequestView;

    open spec fn view(&self) -> UpdateUserRequestView {
        UpdateUserRequestView {
            email: text_of(self.email),
            username: text_of(self.username),
            given_name: text_of(self.given_name),
            family_name: text_of(self.family_name),
            nickname: text_of(self.nickname),
            phone_number: text_of(self.phone_number),
            picture: text_of(self.picture),
            password: text_of(self.password),
            name: text_of(self.name),
            blocked: self.blocked,
        }
    }
}

} // verus!
