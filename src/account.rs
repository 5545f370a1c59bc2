//! The pages around a session: the login page, the start of the OAuth
//! login, the dashboard and logout.

use vstd::prelude::*;

use crate::guard::str_opt_view;
use crate::ident::{parse_uuid, uuid_from_text};
use crate::records::{SessionRecord, StoreError, UserRecord};
use crate::reply::{
    dashboard_path, logged_out, logged_out_view, login_path, page, page_view, redirect,
    redirect_view, Reply, ReplyView, STATUS_BAD_REQUEST, STATUS_INTERNAL_ERROR, STATUS_NOT_FOUND,
    STATUS_OK, STATUS_TEMPORARY_REDIRECT,
};
use crate::store::{delete_session, stores_wf, Stores};

verus! {

pub const LOGIN_PAGE: &'static str = "<form action=\"/auth_sign_on\"><input type=\"submit\" value=\"Sign Up With Google\" /></form><form action=\"/auth\"><input type=\"submit\" value=\"Login With Google\" /></form>";

pub open spec fn invalid_format_view() -> ReplyView {
    page_view(STATUS_BAD_REQUEST, "Invalid session ID format."@, true)
}

pub open spec fn failure_view() -> ReplyView {
    page_view(STATUS_INTERNAL_ERROR, "Internal error"@, true)
}

fn invalid_format() -> (r: Reply)
    ensures
        r@ == invalid_format_view(),
{
    page(STATUS_BAD_REQUEST, "Invalid session ID format.", true)
}

fn failure() -> (r: Reply)
    ensures
        r@ == failure_view(),
{
    page(STATUS_INTERNAL_ERROR, "Internal error", true)
}

/// The page offering to sign up or to log in with the provider.
pub fn login_page() -> (r: Reply)
    ensures
        r@ == page_view(STATUS_OK, LOGIN_PAGE@, true),
{
    page(STATUS_OK, LOGIN_PAGE, true)
}

// ---- Starting a login ----

#[derive(Debug, PartialEq, Eq)]
pub enum AuthStep {
    Respond(Reply),
    /// Read the session row with this identifier and hand it to `auth_loaded`.
    Load(u128),
    /// Send the browser to the provider's authorization URL.
    Authorize,
}

pub ghost enum AuthStepView {
    Respond(ReplyView),
    Load(u128),
    Authorize,
}

impl View for AuthStep {
    type V = AuthStepView;

    open spec fn view(&self) -> AuthStepView {
        match self {
            AuthStep::Respond(r) => AuthStepView::Respond(r@),
            AuthStep::Load(id) => AuthStepView::Load(*id),
            AuthStep::Authorize => AuthStepView::Authorize,
        }
    }
}

/// Without a session cookie the login starts; a cookie that is no identifier
/// is answered 400; otherwise its session is looked up first.
pub fn auth_start(cookie: Option<&str>) -> (r: AuthStep)
    ensures
        r@ == match str_opt_view(cookie) {
            None => AuthStepView::Authorize,
            Some(c) => match uuid_from_text(c) {
                None => AuthStepView::Respond(invalid_format_view()),
                Some(id) => AuthStepView::Load(id),
            },
        },
{
    match cookie {
        None => AuthStep::Authorize,
        Some(c) => match parse_uuid(c) {
            None => AuthStep::Respond(invalid_format()),
            Some(id) => AuthStep::Load(id),
        },
    }
}

/// A session that exists goes to the dashboard without logging in again;
/// without one the login starts; a store failure is answered 500.
pub fn auth_loaded(found: Result<Option<SessionRecord>, StoreError>) -> (r: AuthStep)
    ensures
        r@ == match found {
            Ok(Some(_)) => AuthStepView::Respond(redirect_view(dashboard_path())),
            Ok(None) => AuthStepView::Authorize,
            Err(_) => AuthStepView::Respond(failure_view()),
        },
{
    match found {
        Ok(Some(_)) => AuthStep::Respond(redirect("/dashboard")),
        Ok(None) => AuthStep::Authorize,
        Err(_) => AuthStep::Respond(failure()),
    }
}

// ---- The dashboard ----

#[derive(Debug, PartialEq, Eq)]
pub enum DashboardStep {
    Respond(Reply),
    /// Ask the existence cache for this session; hand the answer to `dashboard_cached`.
    CheckCache(u128),
    /// Read this session row; hand it to `dashboard_session`.
    LoadSession(u128),
    /// Read this user row; hand it to `dashboard_user`.
    LoadUser(u128),
}

pub ghost enum DashboardStepView {
    Respond(ReplyView),
    CheckCache(u128),
    LoadSession(u128),
    LoadUser(u128),
}

impl View for DashboardStep {
    type V = DashboardStepView;

    open spec fn view(&self) -> DashboardStepView {
        match self {
            DashboardStep::Respond(r) => DashboardStepView::Respond(r@),
            DashboardStep::CheckCache(id) => DashboardStepView::CheckCache(*id),
            DashboardStep::LoadSession(id) => DashboardStepView::LoadSession(*id),
            DashboardStep::LoadUser(id) => DashboardStepView::LoadUser(*id),
        }
    }
}

pub open spec fn dashboard_html(name: Seq<char>, email: Seq<char>) -> Seq<char> {
    "<h1>User info : <br> name - "@ + name + ", <br> email - "@ + email
        + "</h1><form action=\"/logout\"><input type=\"submit\" value=\"Logout\" /></form>"@
}

/// The dashboard showing a user's name and email.
pub fn dashboard_page(name: &str, email: &str) -> (r: Reply)
    ensures
        r@ == page_view(STATUS_OK, dashboard_html(name@, email@), true),
{
    let mut body = "<h1>User info : <br> name - ".to_string();
    body.append(name);
    body.append(", <br> email - ");
    body.append(email);
    body.append("</h1><form action=\"/logout\"><input type=\"submit\" value=\"Logout\" /></form>");
    Reply { status: STATUS_OK, location: None, set_cookie: None, body, html: true }
}

/// Without a cookie the dashboard shows no user; a cookie that is no
/// identifier is answered 400 before any store is asked; otherwise the
/// existence cache is asked first.
pub fn dashboard_start(cookie: Option<&str>) -> (r: DashboardStep)
    ensures
        r@ == match str_opt_view(cookie) {
            None => DashboardStepView::Respond(
                page_view(STATUS_OK, dashboard_html(""@, ""@), true),
            ),
            Some(c) => match uuid_from_text(c) {
                None => DashboardStepView::Respond(invalid_format_view()),
                Some(id) => DashboardStepView::CheckCache(id),
            },
        },
{
    match cookie {
        None => DashboardStep::Respond(dashboard_page("", "")),
        Some(c) => match parse_uuid(c) {
            None => DashboardStep::Respond(invalid_format()),
            Some(id) => DashboardStep::CheckCache(id),
        },
    }
}

/// A session the cache does not know is sent to the login page; a known one
/// is read from the store.
pub fn dashboard_cached(id: u128, cached: Result<bool, StoreError>) -> (r: DashboardStep)
    ensures
        r@ == match cached {
            Err(_) => DashboardStepView::Respond(failure_view()),
            Ok(false) => DashboardStepView::Respond(redirect_view(login_path())),
            Ok(true) => DashboardStepView::LoadSession(id),
        },
{
    match cached {
        Err(_) => DashboardStep::Respond(failure()),
        Ok(false) => DashboardStep::Respond(redirect("/login")),
        Ok(true) => DashboardStep::LoadSession(id),
    }
}

/// A session row leads to its user; without one the dashboard shows no user.
pub fn dashboard_session(found: Result<Option<SessionRecord>, StoreError>) -> (r: DashboardStep)
    ensures
        r@ == match found {
            Err(_) => DashboardStepView::Respond(failure_view()),
            Ok(None) => DashboardStepView::Respond(
                page_view(STATUS_OK, dashboard_html(""@, ""@), true),
            ),
            Ok(Some(s)) => DashboardStepView::LoadUser(s.user_id),
        },
{
    match found {
        Err(_) => DashboardStep::Respond(failure()),
        Ok(None) => DashboardStep::Respond(dashboard_page("", "")),
        Ok(Some(s)) => DashboardStep::LoadUser(s.user_id),
    }
}

/// The dashboard of the session's user; 404 where that user is gone.
pub fn dashboard_user(found: Result<Option<UserRecord>, StoreError>) -> (r: Reply)
    ensures
        r@ == match found {
            Err(_) => failure_view(),
            Ok(None) => page_view(STATUS_NOT_FOUND, "User not found"@, true),
            Ok(Some(u)) => page_view(STATUS_OK, dashboard_html(u.name@, u.email@), true),
        },
{
    match found {
        Err(_) => failure(),
        Ok(None) => page(STATUS_NOT_FOUND, "User not found", true),
        Ok(Some(u)) => dashboard_page(u.name.as_str(), u.email.as_str()),
    }
}

// ---- Logout ----

#[derive(Debug, PartialEq, Eq)]
pub enum LogoutStep {
    Respond(Reply),
    /// Delete this session's row and its cache entry; hand the result to
    /// `logout_deleted`.
    Delete(u128),
}

pub ghost enum LogoutStepView {
    Respond(ReplyView),
    Delete(u128),
}

impl View for LogoutStep {
    type V = LogoutStepView;

    open spec fn view(&self) -> LogoutStepView {
        match self {
            LogoutStep::Respond(r) => LogoutStepView::Respond(r@),
            LogoutStep::Delete(id) => LogoutStepView::Delete(*id),
        }
    }
}

pub open spec fn logout_start_spec(cookie: Option<Seq<char>>) -> LogoutStepView {
    match cookie {
        None => LogoutStepView::Respond(redirect_view(login_path())),
        Some(c) => match uuid_from_text(c) {
            None => LogoutStepView::Respond(invalid_format_view()),
            Some(id) => LogoutStepView::Delete(id),
        },
    }
}

pub open spec fn logout_deleted_spec(deleted: Result<u64, StoreError>) -> ReplyView {
    match deleted {
        Ok(_) => logged_out_view(STATUS_TEMPORARY_REDIRECT),
        Err(_) => page_view(STATUS_INTERNAL_ERROR, "Failed to delete session."@, true),
    }
}

/// Without a cookie logout just goes to the login page; a cookie that is no
/// identifier is answered 400; otherwise its session is deleted, expired or
/// not.
pub fn logout_start(cookie: Option<&str>) -> (r: LogoutStep)
    ensures
        r@ == logout_start_spec(str_opt_view(cookie)),
{
    match cookie {
        None => LogoutStep::Respond(redirect("/login")),
        Some(c) => match parse_uuid(c) {
            None => LogoutStep::Respond(invalid_format()),
            Some(id) => LogoutStep::Delete(id),
        },
    }
}

/// After the deletion: the cookie is removed and the browser sent to the
/// login page, whether or not a row was there.
pub fn logout_deleted(deleted: Result<u64, StoreError>) -> (r: Reply)
    ensures
        r@ == logout_deleted_spec(deleted),
{
    match deleted {
        Ok(_) => logged_out(STATUS_TEMPORARY_REDIRECT),
        Err(_) => page(STATUS_INTERNAL_ERROR, "Failed to delete session.", true),
    }
}

/// A whole logout against the stores `s`: the reply and the stores after.
pub open spec fn logout_run(s: Stores, cookie: Option<Seq<char>>) -> (ReplyView, Stores) {
    match logout_start_spec(cookie) {
        LogoutStepView::Respond(r) => (r, s),
        LogoutStepView::Delete(id) => {
            let (n, s2) = delete_session(s, id);
            (logout_deleted_spec(Ok(n)), s2)
        },
    }
}

/// Logging out twice with the same cookie answers the same both times (for
/// an identifier: cookie removed, sent to the login page), and the second
/// logout changes nothing.
pub proof fn lemma_logout_idempotent(s: Stores, cookie: Option<Seq<char>>)
    requires
        stores_wf(s),
    ensures
        ({
            let (first, s1) = logout_run(s, cookie);
            let (second, s2) = logout_run(s1, cookie);
            &&& second == first
            &&& s2 == s1
            &&& stores_wf(s1)
            &&& cookie matches Some(c) ==> (uuid_from_text(c) matches Some(id) ==> first
                == logged_out_view(STATUS_TEMPORARY_REDIRECT) && !s1.sessions.contains_key(id))
        }),
{
    if let Some(c) = cookie {
        if let Some(id) = uuid_from_text(c) {
            crate::store::lemma_delete_session_twice(s, id);
        }
    }
}

} // verus!
