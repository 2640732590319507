//! HTML pages of the user routes: one user, the user list and the new-user form.
use vstd::prelude::*;
use vstd::string::*;
use crate::http::Status;
use crate::text::{decimal, owned, push_decimal, push_signed_decimal, signed_decimal};

verus! {

/// Whether an account is active.
#[derive(PartialEq, Eq, Structural, Clone, Copy, Debug)]
pub enum UserStatus {
    Inactive,
    Active,
}

/// An account as the user pages show it.
pub struct User {
    pub uuid: String,
    pub username: String,
    pub email: String,
    pub description: String,
    pub status: UserStatus,
}

pub struct UserView {
    pub uuid: Seq<char>,
    pub username: Seq<char>,
    pub email: Seq<char>,
    pub description: Seq<char>,
    pub status: UserStatus,
}

impl View for User {
    type V = UserView;

    open spec fn view(&self) -> UserView {
        UserView {
            uuid: self.uuid@,
            username: self.username@,
            email: self.email@,
            description: self.description@,
            status: self.status,
        }
    }
}

/// Where the next page of the user list starts: the creation time of the
/// next user, in nanoseconds since the Unix epoch, and the page size.
#[derive(Clone, Copy, Debug)]
pub struct Pagination {
    pub next: i64,
    pub limit: usize,
}

/// Opening markup of every user page.
pub open spec fn page_prefix() -> Seq<char> {
    "<!DOCTYPE html>\n<html lang=\"en\">\n<head>\n<meta charset=\"utf-8\" />\n<title> Our Application User </title>\n</head>\n<body>"@
}

/// Closing markup of every user page.
pub open spec fn page_suffix() -> Seq<char> {
    "</body></html>"@
}

/// The name of an account status.
pub open spec fn status_name(s: UserStatus) -> Seq<char> {
    match s {
        UserStatus::Inactive => "Inactive"@,
        UserStatus::Active => "Active"@,
    }
}

/// The listing fragment of one account.
pub open spec fn user_html(u: UserView) -> Seq<char> {
    "<div><span class=\"label\">UUID: </span>"@ + u.uuid + "</div>"@
        + "<div><span class=\"label\">Username: </span>"@ + u.username + "</div>"@
        + "<div><span class=\"label\">Email: </span>"@ + u.email + "</div>"@
        + "<div><span class=\"label\">Description: </span>"@ + u.description + "</div>"@
        + "<div><span class=\"label\">Status: </span>"@ + status_name(u.status) + "</div>"@
}

impl User {
    /// The listing fragment of this account.
    pub fn to_html_string(&self) -> (res: String)
        ensures
            res@ == user_html(self@),
    {
        let mut res = owned("<div><span class=\"label\">UUID: </span>");
        res.append(self.uuid.as_str());
        res.append("</div>");
        res.append("<div><span class=\"label\">Username: </span>");
        res.append(self.username.as_str());
        res.append("</div>");
        res.append("<div><span class=\"label\">Email: </span>");
        res.append(self.email.as_str());
        res.append("</div>");
        res.append("<div><span class=\"label\">Description: </span>");
        res.append(self.description.as_str());
        res.append("</div>");
        res.append("<div><span class=\"label\">Status: </span>");
        match self.status {
            UserStatus::Inactive => res.append("Inactive"),
            UserStatus::Active => res.append("Active"),
        }
        res.append("</div>");
        assert(res@ =~= user_html(self@));
        res
    }
}

/// The page of one account: its edit link and a link back to the list.
pub open spec fn user_page(uuid: Seq<char>) -> Seq<char> {
    page_prefix() + "\n            <a href=\"/users/edit/"@ + uuid + "\">Edit user</a>\n        "@ + "\n        <a href=\"/users\">User list</a>\n    "@ + page_suffix()
}

/// The outcome of fetching a record: no database connection could be had,
/// the lookup failed with a status, or the record was found.
pub enum Lookup<T> {
    ConnectionFailed,
    Failed(Status),
    Found(T),
}

/// The answer of `GET /users/<uuid>` (see `get_user_step`) from the outcome
/// of the account lookup: the account's page, `500` when no connection could
/// be had, `404` when the lookup failed.
pub fn user_page_answer(found: Lookup<User>) -> (res: Result<String, Status>)
    ensures
        match found {
            Lookup::ConnectionFailed => res == Err::<String, Status>(Status::InternalServerError),
            Lookup::Failed(_) => res == Err::<String, Status>(Status::NotFound),
            Lookup::Found(u) => res matches Ok(html) && html@ == user_page(u.uuid@),
        },
{
    match found {
        Lookup::ConnectionFailed => Err(Status::InternalServerError),
        Lookup::Failed(_) => Err(Status::NotFound),
        Lookup::Found(user) => {
            let mut html = owned("<!DOCTYPE html>\n<html lang=\"en\">\n<head>\n<meta charset=\"utf-8\" />\n<title> Our Application User </title>\n</head>\n<body>");
            html.append("\n            <a href=\"/users/edit/");
            html.append(user.uuid.as_str());
            html.append("\">Edit user</a>\n        ");
            html.append("\n        <a href=\"/users\">User list</a>\n    ");
            html.append("</body></html>");
            assert(html@ =~= user_page(user.uuid@));
            Ok(html)
        },
    }
}

/// Where a `GET /users/<uuid>` request stands: waiting for a database
/// connection (with the requested uuid), waiting for the account lookup, or
/// answered.
pub enum GetUserStage {
    AwaitConnection(String),
    AwaitUser,
    Finished,
}

/// What the outside work of a `GET /users/<uuid>` request reports.
pub enum GetUserEvent {
    Connected,
    ConnectionFailed,
    UserFound(User),
    UserFailed(Status),
}

/// What a `GET /users/<uuid>` request does next: acquire a connection, look
/// the account with this uuid up, or answer (and do nothing more).
pub enum GetUserAction {
    Acquire,
    FindUser { uuid: String },
    Answer(Result<String, Status>),
}

/// Handler of `GET /users/<uuid>` for the requested `uuid`: starts the
/// request, whose first step acquires a connection; `get_user_step` takes it
/// from there.
pub fn get_user(uuid: &str) -> (res: (GetUserStage, GetUserAction))
    ensures
        res.0 matches GetUserStage::AwaitConnection(u) && u@ == uuid@,
        res.1 is Acquire,
{
    (GetUserStage::AwaitConnection(owned(uuid)), GetUserAction::Acquire)
}

/// The next step of `GET /users/<uuid>` after `event`. The account with the
/// requested uuid is looked up only once a connection was had; a failed
/// connection answers `500`, a failed lookup `404`, a found account its page.
/// An event that does not report on the last action, or comes after the
/// answer, answers `500`; an answered request stays answered.
pub fn get_user_step(stage: GetUserStage, event: GetUserEvent) -> (res: (GetUserStage, GetUserAction))
    ensures
        match (stage, event) {
            (GetUserStage::AwaitConnection(uuid), GetUserEvent::Connected) => res.0 is AwaitUser && (res.1 matches GetUserAction::FindUser { uuid: q } && q@ == uuid@),
            (GetUserStage::AwaitConnection(_), GetUserEvent::ConnectionFailed) => res.0 is Finished && (res.1 matches GetUserAction::Answer(Err(s)) && s == Status::InternalServerError),
            (GetUserStage::AwaitUser, GetUserEvent::UserFound(u)) => res.0 is Finished && (res.1 matches GetUserAction::Answer(Ok(html)) && html@ == user_page(u.uuid@)),
            (GetUserStage::AwaitUser, GetUserEvent::UserFailed(_)) => res.0 is Finished && (res.1 matches GetUserAction::Answer(Err(s)) && s == Status::NotFound),
            _ => res.0 is Finished && (res.1 matches GetUserAction::Answer(Err(s)) && s == Status::InternalServerError),
        },
{
    match (stage, event) {
        (GetUserStage::AwaitConnection(uuid), GetUserEvent::Connected) => (GetUserStage::AwaitUser, GetUserAction::FindUser { uuid }),
        (GetUserStage::AwaitUser, GetUserEvent::UserFound(u)) => (GetUserStage::Finished, GetUserAction::Answer(user_page_answer(Lookup::Found(u)))),
        (GetUserStage::AwaitUser, GetUserEvent::UserFailed(st)) => (GetUserStage::Finished, GetUserAction::Answer(user_page_answer(Lookup::Failed(st)))),
        _ => (GetUserStage::Finished, GetUserAction::Answer(Err(Status::InternalServerError))),
    }
}

/// The link to the next page of the list.
pub open spec fn next_link(p: Pagination) -> Seq<char> {
    "\n                    <a href=\"/users?pagination.next="@ + signed_decimal(p.next as int) + "&pagination.limit="@ + decimal(p.limit as nat) + "\">Next</a></br>\n                "@
}

/// What the list shows for one account: its fragment, its links and, when
/// there is a next page, the link to it.
pub open spec fn user_block(u: UserView, pagination: Option<Pagination>) -> Seq<char> {
    user_html(u) + "\n                <a href=\"users/"@ + u.uuid + "\">See user<a/><br/>\n            "@ + "\n                <a href=\"/users/edit/"@ + u.uuid + "\">Edit user</a><br/>\n            "@ + match pagination {
        Some(p) => next_link(p),
        None => Seq::empty(),
    }
}

/// The blocks of all the listed accounts, in order.
pub open spec fn user_blocks(users: Seq<UserView>, pagination: Option<Pagination>) -> Seq<char>
    decreases users.len(),
{
    if users.len() == 0 {
        Seq::empty()
    } else {
        user_blocks(users.drop_last(), pagination) + user_block(users.last(), pagination)
    }
}

/// The user list page.
pub open spec fn users_page(users: Seq<UserView>, pagination: Option<Pagination>) -> Seq<char> {
    page_prefix() + user_blocks(users, pagination) + "\n        <a href=\"/users/new\">New user</a>\n    "@ + page_suffix()
}

/// Appends the list block of `user` to `out`.
fn push_user_block(out: &mut String, user: &User, pagination: Option<Pagination>)
    ensures
        final(out)@ == old(out)@ + user_block(user@, pagination),
{
    let fragment = user.to_html_string();
    out.append(fragment.as_str());
    out.append("\n                <a href=\"users/");
    out.append(user.uuid.as_str());
    out.append("\">See user<a/><br/>\n            ");
    out.append("\n                <a href=\"/users/edit/");
    out.append(user.uuid.as_str());
    out.append("\">Edit user</a><br/>\n            ");
    match pagination {
        Some(pg) => {
            out.append("\n                    <a href=\"/users?pagination.next=");
            push_signed_decimal(out, pg.next);
            out.append("&pagination.limit=");
            push_decimal(out, pg.limit as u64);
            out.append("\">Next</a></br>\n                ");
        },
        None => {},
    }
    assert(out@ =~= old(out)@ + user_block(user@, pagination));
}

/// Handler of `GET /users?<pagination>`: the list of one page of accounts;
/// `404` when the accounts could not be fetched. The link to the next page
/// follows every account of the page.
pub fn get_users(found: Result<(Vec<User>, Option<Pagination>), Status>) -> (res: Result<String, Status>)
    ensures
        match found {
            Err(_) => res == Err::<String, Status>(Status::NotFound),
            Ok((users, pagination)) => res matches Ok(html) && html@ == users_page(
                users@.map_values(|u: User| u@),
                pagination,
            ),
        },
{
    let (users, pagination) = match found {
        Err(_) => {
            return Err(Status::NotFound);
        },
        Ok(pair) => pair,
    };
    let ghost views = users@.map_values(|u: User| u@);
    let mut html = owned("<!DOCTYPE html>\n<html lang=\"en\">\n<head>\n<meta charset=\"utf-8\" />\n<title> Our Application User </title>\n</head>\n<body>");
    let n = users.len();
    let mut i: usize = 0;
    while i < n
        invariant
            i <= n,
            n == users@.len(),
            views == users@.map_values(|u: User| u@),
            html@ == page_prefix() + user_blocks(views.take(i as int), pagination),
        decreases n - i,
    {
        let user = &users[i];
        push_user_block(&mut html, user, pagination);
        assert(views.take(i + 1).drop_last() =~= views.take(i as int));
        assert(views.take(i + 1).last() == user@);
        i = i + 1;
    }
    assert(views.take(n as int) =~= views);
    html.append("\n        <a href=\"/users/new\">New user</a>\n    ");
    html.append("</body></html>");
    Ok(html)
}

/// The new-account form page. It has no closing markup.
pub open spec fn new_user_page() -> Seq<char> {
    page_prefix() + "\n        <form accept-chartset=\"UTF-8\" action=\"/users\"\n            autocomplete=\"off\" method=\"POST\">\n            <div>\n                <label for=\"username\">Username:</label>\n                <input name=\"username\" type=\"text\"/>\n            </div>\n            <div>\n                <label for=\"username\">Username:</label>\n                <input name=\"username\" type=\"text\"/>\n            </div>\n        </form>\n    "@
}

/// Handler of `GET /users/new`.
pub fn new_user() -> (res: String)
    ensures
        res@ == new_user_page(),
{
    let mut html = owned("<!DOCTYPE html>\n<html lang=\"en\">\n<head>\n<meta charset=\"utf-8\" />\n<title> Our Application User </title>\n</head>\n<body>");
    html.append("\n        <form accept-chartset=\"UTF-8\" action=\"/users\"\n            autocomplete=\"off\" method=\"POST\">\n            <div>\n                <label for=\"username\">Username:</label>\n                <input name=\"username\" type=\"text\"/>\n            </div>\n            <div>\n                <label for=\"username\">Username:</label>\n                <input name=\"username\" type=\"text\"/>\n            </div>\n        </form>\n    ");
    html
}

} // verus!
