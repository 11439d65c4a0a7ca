use admin_console::errors::AppError;
use admin_console::routes::users::flow::{start, Answer, Request, Step, UserRecord};
use admin_console::routes::users::{CreateForm, ListQuery, Listing, LogsInset, UpdateForm};
use admin_console::templates::Response;
use axum::http::{HeaderMap, HeaderValue};

/// An upstream that answers from a script and keeps a record of what it was
/// asked.
struct Upstream {
    up: bool,
    users: Vec<&'static str>,
    blocked: Option<bool>,
    asked: Vec<String>,
}

impl Upstream {
    fn healthy(users: Vec<&'static str>) -> Upstream {
        Upstream { up: true, users, blocked: Some(false), asked: Vec::new() }
    }

    fn failing() -> Upstream {
        Upstream { up: false, users: Vec::new(), blocked: None, asked: Vec::new() }
    }

    fn answer<T>(&mut self, call: String, value: T) -> Result<T, String> {
        self.asked.push(call);
        if self.up {
            Ok(value)
        } else {
            Err("upstream is down".to_string())
        }
    }

    /// Makes each call the flow names and hands back what came of it.
    fn run(
        &mut self,
        request: Request,
        headers: &HeaderMap,
    ) -> Result<Answer<&'static str, u8>, AppError> {
        let mut step: Step<&'static str, u8> = start(request);
        loop {
            step = match step {
                Step::ListUsers(params, waiting) => {
                    let call = match params {
                        Some(p) => format!("list users page {:?} q {:?}", p.page, p.q),
                        None => "list users".to_string(),
                    };
                    let users = self.users.clone();
                    waiting.resume(self.answer(call, users))
                }
                Step::ConnectionNames(waiting) => waiting
                    .resume(self.answer("names".to_string(), vec!["github".to_string()]), headers),
                Step::GetUser(id, waiting) => {
                    let record = UserRecord { record: "the user", blocked: self.blocked };
                    waiting.resume(self.answer(format!("get {}", id), record))
                }
                Step::CreateUser(request, waiting) => waiting.resume(
                    self.answer(format!("create {}", request.email.unwrap_or_default()), ()),
                    headers,
                ),
                Step::UpdateUser(id, request, waiting) => waiting.resume(
                    self.answer(format!("update {} blocked {:?}", id, request.blocked), ()),
                    headers,
                ),
                Step::DeleteUser(id, waiting) => {
                    waiting.resume(self.answer(format!("delete {}", id), ()), headers)
                }
                Step::UserLogs(id, params, waiting) => waiting.resume(self.answer(
                    format!("logs {} per page {:?}", id, params.per_page),
                    vec![1u8, 2],
                )),
                Step::Done(answer) => return answer,
            };
        }
    }
}

fn from_table() -> HeaderMap {
    let mut headers = HeaderMap::new();
    headers.insert("hx-request", HeaderValue::from_static("true"));
    headers.insert("hx-target", HeaderValue::from_static("users-table"));
    headers
}

fn form(email: &str, password: &str) -> CreateForm {
    CreateForm {
        email: email.to_string(),
        password: password.to_string(),
        connection: "github".to_string(),
        username: None,
        given_name: None,
        family_name: None,
        verify_email: None,
    }
}

fn blank_update() -> UpdateForm {
    UpdateForm {
        email: None,
        username: None,
        given_name: None,
        family_name: None,
        nickname: None,
        phone_number: None,
        picture: None,
        password: None,
    }
}

fn alice_query() -> ListQuery {
    ListQuery { page: Some(1), q: Some("alice".to_string()), connection: None }
}

#[test]
fn listing_with_a_healthy_upstream() {
    let mut upstream = Upstream::healthy(vec!["u"; 20]);
    match upstream.run(Request::List(alice_query()), &HeaderMap::new()) {
        Ok(Answer::Users(Listing::Full(page))) => {
            assert_eq!(page.users.len(), 20);
            assert_eq!(page.page, 1);
            assert_eq!(admin_console::helpers::display_page(page.page), 2);
            assert_eq!(page.search_query, "alice");
            assert_eq!(page.connections, vec!["github".to_string()]);
        }
        _ => panic!("expected the full page"),
    }
    assert_eq!(upstream.asked, vec!["list users page Some(1) q Some(\"alice\")", "names"]);
}

#[test]
fn listing_with_a_failing_upstream_still_renders() {
    let mut upstream = Upstream::failing();
    match upstream.run(Request::List(alice_query()), &HeaderMap::new()) {
        Ok(Answer::Users(Listing::Full(page))) => {
            assert_eq!(page.users.len(), 0);
            assert_eq!(page.page, 1);
            assert_eq!(page.total_pages, 1);
            assert_eq!(page.search_query, "alice");
            assert!(page.connections.is_empty());
            assert!(page.errors.is_empty());
        }
        _ => panic!("expected the full page"),
    }
    assert_eq!(upstream.asked.len(), 2);
}

#[test]
fn listing_for_a_partial_update_is_the_table() {
    let mut upstream = Upstream::healthy(vec!["u"; 3]);
    match upstream.run(Request::List(ListQuery::default()), &from_table()) {
        Ok(Answer::Users(Listing::Table(table))) => {
            assert_eq!(table.users.len(), 3);
            assert_eq!(table.page, 0);
            assert_eq!(table.total_pages, 1);
        }
        _ => panic!("expected the table"),
    }
}

#[test]
fn invalid_form_never_reaches_the_upstream_create() {
    let mut upstream = Upstream::healthy(Vec::new());
    match upstream.run(Request::Create(form("not-an-email", "short")), &HeaderMap::new()) {
        Ok(Answer::Form(view)) => {
            assert_eq!(view.errors.entries().len(), 2);
            assert_eq!(view.errors.get("email"), vec!["Must be a valid email address".to_string()]);
            assert_eq!(
                view.errors.get("password"),
                vec!["Password must be at least 8 characters".to_string()]
            );
            assert_eq!(view.form.email, "not-an-email");
            assert_eq!(view.form.password, "short");
            assert_eq!(view.connections, vec!["github".to_string()]);
        }
        _ => panic!("expected the form"),
    }
    assert_eq!(upstream.asked, vec!["names"]);
}

#[test]
fn valid_form_is_created_and_the_table_refreshed() {
    let mut upstream = Upstream::healthy(vec!["alice"]);
    match upstream.run(Request::Create(form("alice@example.com", "correct horse")), &from_table()) {
        Ok(Answer::Table(table)) => {
            assert_eq!(table.users, vec!["alice"]);
            assert_eq!(table.page, 0);
            assert_eq!(table.total_pages, 1);
        }
        _ => panic!("expected the table"),
    }
    assert_eq!(upstream.asked, vec!["create alice@example.com", "list users"]);
}

#[test]
fn refused_create_comes_back_as_the_form() {
    let mut upstream = Upstream::failing();
    match upstream.run(Request::Create(form("alice@example.com", "correct horse")), &from_table()) {
        Ok(Answer::Form(view)) => {
            assert_eq!(
                view.errors.base(),
                &vec!["Failed to create user: upstream is down".to_string()]
            );
            assert!(view.errors.entries().is_empty());
            assert_eq!(view.form.email, "alice@example.com");
            assert!(view.connections.is_empty());
        }
        _ => panic!("expected the form"),
    }
    assert_eq!(upstream.asked, vec!["create alice@example.com", "names"]);
}

#[test]
fn user_page_or_not_found() {
    let mut upstream = Upstream::healthy(Vec::new());
    match upstream.run(Request::Get("auth0|1".to_string()), &HeaderMap::new()) {
        Ok(Answer::Detail(page)) => {
            assert_eq!(page.user, "the user");
            assert!(page.errors.is_empty());
        }
        _ => panic!("expected the user's page"),
    }
    assert_eq!(upstream.asked, vec!["get auth0|1"]);
    let mut upstream = Upstream::failing();
    assert!(matches!(
        upstream.run(Request::Get("auth0|1".to_string()), &HeaderMap::new()),
        Err(AppError::NotFound)
    ));
}

#[test]
fn update_shows_the_user_again_whatever_happened() {
    let nickname = || UpdateForm { nickname: Some("al".to_string()), ..blank_update() };
    let mut upstream = Upstream::healthy(Vec::new());
    match upstream.run(Request::Update("u1".to_string(), nickname()), &HeaderMap::new()) {
        Ok(Answer::Detail(page)) => assert!(page.errors.is_empty()),
        _ => panic!("expected the user's page"),
    }
    assert_eq!(upstream.asked, vec!["update u1 blocked None", "get u1"]);

    let mut upstream = Upstream::healthy(Vec::new());
    let bad = UpdateForm { email: Some("nope".to_string()), ..blank_update() };
    match upstream.run(Request::Update("u1".to_string(), bad), &HeaderMap::new()) {
        Ok(Answer::Detail(page)) => {
            assert_eq!(page.errors.get("email"), vec!["Must be a valid email address".to_string()])
        }
        _ => panic!("expected the user's page"),
    }
    assert_eq!(upstream.asked, vec!["get u1"]);

    let mut upstream = Upstream::failing();
    assert!(matches!(
        upstream.run(Request::Update("u1".to_string(), nickname()), &HeaderMap::new()),
        Err(AppError::NotFound)
    ));
    assert_eq!(upstream.asked, vec!["update u1 blocked None", "get u1"]);
}

#[test]
fn failed_update_is_shown_on_the_user_page() {
    let first: Step<&str, u8> = start(Request::Update(
        "u1".to_string(),
        UpdateForm { nickname: Some("al".to_string()), ..blank_update() },
    ));
    let second: Step<&str, u8> = match first {
        Step::UpdateUser(id, request, waiting) => {
            assert_eq!(id, "u1");
            assert_eq!(request.nickname, Some("al".to_string()));
            waiting.resume(Err("bad request".to_string()), &HeaderMap::new())
        }
        _ => panic!("expected an update"),
    };
    let last: Step<&str, u8> = match second {
        Step::GetUser(id, waiting) => {
            assert_eq!(id, "u1");
            waiting.resume(Ok(UserRecord { record: "alice", blocked: None }))
        }
        _ => panic!("expected a fetch of the user"),
    };
    match last {
        Step::Done(Ok(Answer::Detail(page))) => {
            assert_eq!(page.user, "alice");
            assert_eq!(
                page.errors.base(),
                &vec!["Failed to update user: bad request".to_string()]
            );
        }
        _ => panic!("expected the user's page"),
    }
}

#[test]
fn delete_redirects_or_fails() {
    let mut upstream = Upstream::healthy(Vec::new());
    match upstream.run(Request::Delete("u1".to_string()), &HeaderMap::new()) {
        Ok(Answer::Send(Response::Redirect(to))) => assert_eq!(to, "/users"),
        _ => panic!("expected a redirect"),
    }
    assert_eq!(upstream.asked, vec!["delete u1"]);
    let mut upstream = Upstream::failing();
    match upstream.run(Request::Delete("u1".to_string()), &HeaderMap::new()) {
        Err(AppError::Auth0(text)) => assert_eq!(text, "upstream is down"),
        _ => panic!("expected an upstream error"),
    }
    assert_eq!(upstream.asked, vec!["delete u1"]);
}

#[test]
fn toggle_block_from_the_table_refreshes_it() {
    let mut upstream = Upstream::healthy(vec!["alice", "bob"]);
    match upstream.run(Request::ToggleBlock("auth0|1".to_string()), &from_table()) {
        Ok(Answer::Table(table)) => {
            assert_eq!(table.users, vec!["alice", "bob"]);
            assert_eq!(table.page, 0);
            assert_eq!(table.total_pages, 1);
        }
        _ => panic!("expected the table"),
    }
    assert_eq!(
        upstream.asked,
        vec!["get auth0|1", "update auth0|1 blocked Some(true)", "list users"]
    );
}

#[test]
fn toggle_block_from_elsewhere_redirects() {
    let mut upstream = Upstream::healthy(vec!["alice", "bob"]);
    upstream.blocked = Some(true);
    match upstream.run(Request::ToggleBlock("auth0|1".to_string()), &HeaderMap::new()) {
        Ok(Answer::Send(Response::Redirect(to))) => assert_eq!(to, "/users/auth0|1"),
        _ => panic!("expected a redirect"),
    }
    assert_eq!(upstream.asked, vec!["get auth0|1", "update auth0|1 blocked Some(false)"]);
}

#[test]
fn toggle_block_stops_at_the_first_failure() {
    let mut upstream = Upstream::failing();
    assert!(matches!(
        upstream.run(Request::ToggleBlock("u".to_string()), &from_table()),
        Err(AppError::NotFound)
    ));
    assert_eq!(upstream.asked, vec!["get u"]);

    let first: Step<&str, u8> = start(Request::ToggleBlock("u".to_string()));
    let second: Step<&str, u8> = match first {
        Step::GetUser(_, waiting) => waiting.resume(Ok(UserRecord { record: "u", blocked: None })),
        _ => panic!("expected a fetch of the user"),
    };
    let last: Step<&str, u8> = match second {
        Step::UpdateUser(_, request, waiting) => {
            assert_eq!(request.blocked, Some(true));
            waiting.resume(Err("rate limited".to_string()), &from_table())
        }
        _ => panic!("expected an update"),
    };
    match last {
        Step::Done(Err(AppError::Auth0(text))) => assert_eq!(text, "rate limited"),
        _ => panic!("expected an upstream error"),
    }
}

#[test]
fn log_inset_or_note() {
    let mut upstream = Upstream::healthy(Vec::new());
    match upstream.run(Request::Logs("u1".to_string()), &HeaderMap::new()) {
        Ok(Answer::Logs(LogsInset::Logs(view))) => assert_eq!(view.logs, vec![1, 2]),
        _ => panic!("expected the events"),
    }
    assert_eq!(upstream.asked, vec!["logs u1 per page Some(10)"]);
    let mut upstream = Upstream::failing();
    match upstream.run(Request::Logs("u1".to_string()), &HeaderMap::new()) {
        Ok(Answer::Logs(LogsInset::Unavailable(note))) => {
            assert_eq!(note, "<p class='text-muted'>Unable to load logs</p>")
        }
        _ => panic!("expected the note"),
    }
}

#[test]
fn no_flow_asks_more_than_three_times() {
    let requests = || {
        vec![
            Request::List(ListQuery::default()),
            Request::Create(form("alice@example.com", "correct horse")),
            Request::Create(form("", "")),
            Request::Get("u".to_string()),
            Request::Update("u".to_string(), blank_update()),
            Request::Delete("u".to_string()),
            Request::ToggleBlock("u".to_string()),
            Request::Logs("u".to_string()),
        ]
    };
    for headers in [HeaderMap::new(), from_table()] {
        for request in requests() {
            let mut upstream = Upstream::healthy(Vec::new());
            let _ = upstream.run(request, &headers);
            assert!(upstream.asked.len() <= 3);
        }
        for request in requests() {
            let mut upstream = Upstream::failing();
            let _ = upstream.run(request, &headers);
            assert!(upstream.asked.len() <= 3);
        }
    }
}
