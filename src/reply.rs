//! What a handler answers: a status, an optional redirect target, an optional
//! `Set-Cookie` value and a body.

use vstd::prelude::*;

use crate::ident::{id_text, uuid_text_of};

verus! {

pub const STATUS_OK: u16 = 200;
pub const STATUS_CREATED: u16 = 201;
pub const STATUS_ACCEPTED: u16 = 202;
pub const STATUS_TEMPORARY_REDIRECT: u16 = 307;
pub const STATUS_BAD_REQUEST: u16 = 400;
pub const STATUS_UNAUTHORIZED: u16 = 401;
pub const STATUS_FORBIDDEN: u16 = 403;
pub const STATUS_NOT_FOUND: u16 = 404;
pub const STATUS_INTERNAL_ERROR: u16 = 500;

#[derive(Clone, Debug, PartialEq, Eq)]
pub struct Reply {
    pub status: u16,
    /// Target of a redirect, sent as `Location`.
    pub location: Option<String>,
    /// Value of a `Set-Cookie` header.
    pub set_cookie: Option<String>,
    pub body: String,
    /// The body is HTML rather than plain text.
    pub html: bool,
}

pub ghost struct ReplyView {
    pub status: u16,
    pub location: Option<Seq<char>>,
    pub set_cookie: Option<Seq<char>>,
    pub body: Seq<char>,
    pub html: bool,
}

impl View for Reply {
    type V = ReplyView;

    open spec fn view(&self) -> ReplyView {
        ReplyView {
            status: self.status,
            location: self.location.deep_view(),
            set_cookie: self.set_cookie.deep_view(),
            body: self.body@,
            html: self.html,
        }
    }
}

pub open spec fn login_path() -> Seq<char> {
    "/login"@
}

pub open spec fn dashboard_path() -> Seq<char> {
    "/dashboard"@
}

/// The `Set-Cookie` value that removes the session cookie.
pub open spec fn cleared_cookie() -> Seq<char> {
    "session_id=deleted; HttpOnly; Secure; SameSite=Strict; Max-Age=0"@
}

/// The `Set-Cookie` value that hands a session to the browser.
pub open spec fn session_cookie_of(id: u128) -> Seq<char> {
    "session_id="@ + uuid_text_of(id) + "; HttpOnly; Secure; SameSite=Strict; Path=/"@
}

pub open spec fn page_view(status: u16, body: Seq<char>, html: bool) -> ReplyView {
    ReplyView { status, location: None, set_cookie: None, body, html }
}

pub open spec fn redirect_view(location: Seq<char>) -> ReplyView {
    ReplyView {
        status: STATUS_TEMPORARY_REDIRECT,
        location: Some(location),
        set_cookie: None,
        body: Seq::empty(),
        html: false,
    }
}

/// A redirect to the login page that also removes the session cookie.
pub open spec fn logged_out_view(status: u16) -> ReplyView {
    ReplyView {
        status,
        location: Some(login_path()),
        set_cookie: Some(cleared_cookie()),
        body: Seq::empty(),
        html: false,
    }
}

pub fn page(status: u16, body: &str, html: bool) -> (r: Reply)
    ensures
        r@ == page_view(status, body@, html),
{
    Reply { status, location: None, set_cookie: None, body: body.to_string(), html }
}

pub fn redirect(location: &str) -> (r: Reply)
    ensures
        r@ == redirect_view(location@),
{
    Reply {
        status: STATUS_TEMPORARY_REDIRECT,
        location: Some(location.to_string()),
        set_cookie: None,
        body: String::new(),
        html: false,
    }
}

/// Redirects to the login page and removes the session cookie; `status` is
/// 307 for a logout and 401 where a session was refused.
pub fn logged_out(status: u16) -> (r: Reply)
    ensures
        r@ == logged_out_view(status),
{
    Reply {
        status,
        location: Some("/login".to_string()),
        set_cookie: Some("session_id=deleted; HttpOnly; Secure; SameSite=Strict; Max-Age=0".to_string()),
        body: String::new(),
        html: false,
    }
}

/// The `Set-Cookie` value for a new session: HTTP-only, secure, strict
/// same-site, for the whole site.
pub fn session_cookie(id: u128) -> (r: String)
    ensures
        r@ == session_cookie_of(id),
{
    let mut c = "session_id=".to_string();
    let t = id_text(id);
    c.append(t.as_str());
    c.append("; HttpOnly; Secure; SameSite=Strict; Path=/");
    c
}

} // verus!
