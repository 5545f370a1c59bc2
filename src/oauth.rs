//! The OAuth callback: from the provider's redirect to a session. The flow
//! is a state machine. Each step takes the outcome of the last outside
//! operation (a code exchange, a user-info fetch, a store call) and names
//! the next one; whoever runs the flow performs it and hands back its outcome.

use vstd::prelude::*;

use crate::clock::{now_unix_seconds, CLOCK_MAX};
use crate::ident::new_uuid;
use crate::query::{last_value, query_value};
use crate::records::{SessionRecord, SessionView, StoreError, UserRecord, UserView};
use crate::reply::{page, page_view, session_cookie, session_cookie_of, Reply, ReplyView,
    STATUS_BAD_REQUEST, STATUS_INTERNAL_ERROR, STATUS_NOT_FOUND, STATUS_OK,
    STATUS_TEMPORARY_REDIRECT, STATUS_UNAUTHORIZED,
};
use crate::userinfo::{json_flag_member, json_parses, read_userinfo, userinfo_of, UserInfo, UserInfoView};

verus! {

/// How long a new session lives, in seconds.
pub const SESSION_LIFETIME: i64 = 3600;

/// How long the existence cache keeps a new session's identifier, in seconds.
pub const CACHE_TTL: u64 = 3600;

/// Where the provider's user-info endpoint is; the access token follows.
pub const USERINFO_ENDPOINT: &'static str = "https://www.googleapis.com/oauth2/v2/userinfo?oauth_token=";

/// The page that sends a freshly signed-in browser on to the dashboard.
pub const SIGNED_IN_PAGE: &'static str = "<html><head><meta http-equiv=\"refresh\" content=\"0; url=/dashboard\" /></head><body>User authenticated. Redirecting...</body></html>";

/// The scopes an authorization request asks for: sign-in, the user's email
/// address, and the user's profile.
pub const OPENID_SCOPE: &'static str = "openid";

pub const EMAIL_SCOPE: &'static str = "https://www.googleapis.com/auth/userinfo.email";

pub const PROFILE_SCOPE: &'static str = "https://www.googleapis.com/auth/userinfo.profile";

/// The cookie that carries the CSRF token of an authorization request back
/// to the callback.
pub const STATE_COOKIE: &'static str = "oauth_state";

/// Logging in needs an existing user with the provider's email; registering
/// always creates a user.
#[derive(Clone, Copy, Debug, PartialEq, Eq, Structural)]
pub enum Flow {
    Login,
    Register,
}

#[derive(Clone, Copy, Debug, PartialEq, Eq, Structural)]
pub enum OAuthError {
    ExchangeFailed,
    UserInfoFetchFailed,
    UserInfoParseError,
    EmailUnverified,
}

#[derive(Debug, PartialEq, Eq)]
pub enum CallbackState {
    /// Waiting for the query of the provider's redirect.
    Start(Flow),
    /// The authorization code is being exchanged; `csrf` is the `state` received.
    Exchanging { flow: Flow, csrf: String },
    /// User info is being fetched with the access token.
    FetchingUser { flow: Flow, csrf: String, access_token: String },
    /// Logging in: the user is being looked up by email.
    FindingUser { csrf: String, access_token: String },
    /// Registering: the row of the new user `user_id` is being inserted.
    CreatingUser { csrf: String, access_token: String, user_id: u128 },
    /// The row of session `session_id` is being inserted.
    CreatingSession { session_id: u128 },
    Done,
}

#[derive(Debug, PartialEq, Eq)]
pub enum CallbackEvent {
    /// The query parameters of the redirect, and the CSRF token that was
    /// issued with the authorization request, if the browser sent it back.
    Query(Vec<(String, String)>, Option<String>),
    /// The access token from the code exchange, or `None` where it failed.
    Exchanged(Option<String>),
    /// The user info, or why there is none.
    UserInfo(Result<UserInfo, OAuthError>),
    UserFound(Result<Option<UserRecord>, StoreError>),
    UserInserted(Result<(), StoreError>),
    SessionInserted(Result<(), StoreError>),
}

#[derive(Debug, PartialEq, Eq)]
pub enum CallbackAction {
    ExchangeCode(String),
    /// Fetch this URL; its body goes to `userinfo_event`.
    FetchUserInfo(String),
    FindUserByEmail(String),
    InsertUser(UserRecord),
    /// Insert the row, then record its identifier in the existence cache for
    /// `CACHE_TTL` seconds.
    InsertSession(SessionRecord),
    Respond(Reply),
}

pub ghost enum StateView {
    Start(Flow),
    Exchanging { flow: Flow, csrf: Seq<char> },
    FetchingUser { flow: Flow, csrf: Seq<char>, access_token: Seq<char> },
    FindingUser { csrf: Seq<char>, access_token: Seq<char> },
    CreatingUser { csrf: Seq<char>, access_token: Seq<char>, user_id: u128 },
    CreatingSession { session_id: u128 },
    Done,
}

pub ghost enum EventView {
    Query(Seq<(Seq<char>, Seq<char>)>, Option<Seq<char>>),
    Exchanged(Option<Seq<char>>),
    UserInfo(Result<UserInfoView, OAuthError>),
    UserFound(Result<Option<UserView>, StoreError>),
    UserInserted(Result<(), StoreError>),
    SessionInserted(Result<(), StoreError>),
}

pub ghost enum ActionView {
    ExchangeCode(Seq<char>),
    FetchUserInfo(Seq<char>),
    FindUserByEmail(Seq<char>),
    InsertUser(UserView),
    InsertSession(SessionView),
    Respond(ReplyView),
}

impl View for CallbackState {
    type V = StateView;

    open spec fn view(&self) -> StateView {
        match self {
            CallbackState::Start(f) => StateView::Start(*f),
            CallbackState::Exchanging { flow, csrf } => StateView::Exchanging {
                flow: *flow,
                csrf: csrf@,
            },
            CallbackState::FetchingUser { flow, csrf, access_token } => StateView::FetchingUser {
                flow: *flow,
                csrf: csrf@,
                access_token: access_token@,
            },
            CallbackState::FindingUser { csrf, access_token } => StateView::FindingUser {
                csrf: csrf@,
                access_token: access_token@,
            },
            CallbackState::CreatingUser { csrf, access_token, user_id } => StateView::CreatingUser {
                csrf: csrf@,
                access_token: access_token@,
                user_id: *user_id,
            },
            CallbackState::CreatingSession { session_id } => StateView::CreatingSession {
                session_id: *session_id,
            },
            CallbackState::Done => StateView::Done,
        }
    }
}

impl View for CallbackEvent {
    type V = EventView;

    open spec fn view(&self) -> EventView {
        match self {
            CallbackEvent::Query(q, issued) => EventView::Query(q.deep_view(), issued.deep_view()),
            CallbackEvent::Exchanged(t) => EventView::Exchanged(t.deep_view()),
            CallbackEvent::UserInfo(r) => EventView::UserInfo(
                match r {
                    Ok(i) => Ok(i@),
                    Err(e) => Err(*e),
                },
            ),
            CallbackEvent::UserFound(r) => EventView::UserFound(
                match r {
                    Ok(Some(u)) => Ok(Some(u@)),
                    Ok(None) => Ok(None),
                    Err(e) => Err(*e),
                },
            ),
            CallbackEvent::UserInserted(r) => EventView::UserInserted(*r),
            CallbackEvent::SessionInserted(r) => EventView::SessionInserted(*r),
        }
    }
}

impl View for CallbackAction {
    type V = ActionView;

    open spec fn view(&self) -> ActionView {
        match self {
            CallbackAction::ExchangeCode(c) => ActionView::ExchangeCode(c@),
            CallbackAction::FetchUserInfo(u) => ActionView::FetchUserInfo(u@),
            CallbackAction::FindUserByEmail(e) => ActionView::FindUserByEmail(e@),
            CallbackAction::InsertUser(u) => ActionView::InsertUser(u@),
            CallbackAction::InsertSession(s) => ActionView::InsertSession(s@),
            CallbackAction::Respond(r) => ActionView::Respond(r@),
        }
    }
}

pub open spec fn error_page(status: u16, text: Seq<char>) -> ActionView {
    ActionView::Respond(page_view(status, text, true))
}

/// What the user is told where the provider's part of the flow fails.
pub open spec fn oauth_error_page(e: OAuthError) -> ActionView {
    match e {
        OAuthError::ExchangeFailed => error_page(STATUS_INTERNAL_ERROR, "Failed to exchange code"@),
        OAuthError::UserInfoFetchFailed => error_page(
            STATUS_INTERNAL_ERROR,
            "Failed to fetch user info"@,
        ),
        OAuthError::UserInfoParseError => error_page(
            STATUS_INTERNAL_ERROR,
            "Failed to parse userinfo response"@,
        ),
        OAuthError::EmailUnverified => error_page(STATUS_UNAUTHORIZED, "Email is not verified."@),
    }
}

/// The email (and, for registration, the name) that the flow goes on with,
/// or why the user info does not do: an email the provider has not verified
/// stops both flows.
pub open spec fn userinfo_outcome(flow: Flow, info: UserInfoView) -> Result<
    (Seq<char>, Seq<char>),
    OAuthError,
> {
    match (info.email, info.verified_email) {
        (Some(email), Some(true)) => match flow {
            Flow::Login => Ok((email, Seq::empty())),
            Flow::Register => match info.name {
                Some(name) => Ok((email, name)),
                None => Err(OAuthError::UserInfoParseError),
            },
        },
        (Some(_), Some(false)) => Err(OAuthError::EmailUnverified),
        _ => Err(OAuthError::UserInfoParseError),
    }
}

/// The session row for `user`, named `session_id`, expiring `SESSION_LIFETIME`
/// seconds after `now`.
pub open spec fn new_session_row(
    session_id: u128,
    user: u128,
    csrf: Seq<char>,
    access_token: Seq<char>,
    now: int,
) -> SessionView {
    SessionView {
        session_id,
        access_token,
        refresh_token: Seq::empty(),
        data: None,
        expires_at: now + SESSION_LIFETIME,
        csrf_token: csrf,
        user_id: user,
    }
}

pub open spec fn signed_in_view(session_id: u128) -> ReplyView {
    ReplyView {
        status: STATUS_OK,
        location: None,
        set_cookie: Some(session_cookie_of(session_id)),
        body: SIGNED_IN_PAGE@,
        html: true,
    }
}

/// One step of the callback flow. `session_id` and `user_id` are fresh
/// identifiers and `now` the time, used where a row is made.
pub open spec fn step_spec(
    state: StateView,
    event: EventView,
    session_id: u128,
    user_id: u128,
    now: int,
) -> (StateView, ActionView) {
    match (state, event) {
        (StateView::Start(flow), EventView::Query(q, issued)) => match last_value(q, "state"@) {
            None => (StateView::Done, error_page(STATUS_BAD_REQUEST, "Missing CSRF token"@)),
            Some(csrf) => if issued != Some(csrf) {
                (StateView::Done, error_page(STATUS_BAD_REQUEST, "CSRF token mismatch"@))
            } else {
                match last_value(q, "code"@) {
                    None => (StateView::Done, error_page(STATUS_BAD_REQUEST, "Missing code"@)),
                    Some(code) => (
                        StateView::Exchanging { flow, csrf },
                        ActionView::ExchangeCode(code),
                    ),
                }
            },
        },
        (StateView::Exchanging { flow, csrf }, EventView::Exchanged(t)) => match t {
            None => (StateView::Done, oauth_error_page(OAuthError::ExchangeFailed)),
            Some(token) => (
                StateView::FetchingUser { flow, csrf, access_token: token },
                ActionView::FetchUserInfo(USERINFO_ENDPOINT@ + token),
            ),
        },
        (StateView::FetchingUser { flow, csrf, access_token }, EventView::UserInfo(r)) => match r {
            Err(e) => (StateView::Done, oauth_error_page(e)),
            Ok(info) => match userinfo_outcome(flow, info) {
                Err(e) => (StateView::Done, oauth_error_page(e)),
                Ok((email, name)) => match flow {
                    Flow::Login => (
                        StateView::FindingUser { csrf, access_token },
                        ActionView::FindUserByEmail(email),
                    ),
                    Flow::Register => {
                        let user = UserView { uuid: user_id, name, email, password: None };
                        (
                            StateView::CreatingUser { csrf, access_token, user_id },
                            ActionView::InsertUser(user),
                        )
                    },
                },
            },
        },
        (StateView::FindingUser { csrf, access_token }, EventView::UserFound(r)) => match r {
            Err(_) => (StateView::Done, error_page(STATUS_INTERNAL_ERROR, "Database query failed"@)),
            Ok(None) => (StateView::Done, error_page(STATUS_NOT_FOUND, "User not found"@)),
            Ok(Some(user)) => {
                let row = new_session_row(session_id, user.uuid, csrf, access_token, now);
                (StateView::CreatingSession { session_id }, ActionView::InsertSession(row))
            },
        },
        (StateView::CreatingUser { csrf, access_token, user_id }, EventView::UserInserted(r)) => match r {
            Err(_) => (StateView::Done, error_page(STATUS_INTERNAL_ERROR, "Failed to create user"@)),
            Ok(_) => {
                let row = new_session_row(session_id, user_id, csrf, access_token, now);
                (StateView::CreatingSession { session_id }, ActionView::InsertSession(row))
            },
        },
        (StateView::CreatingSession { session_id }, EventView::SessionInserted(r)) => match r {
            Err(_) => (
                StateView::Done,
                error_page(STATUS_INTERNAL_ERROR, "Failed to create session"@),
            ),
            Ok(_) => (StateView::Done, ActionView::Respond(signed_in_view(session_id))),
        },
        _ => (StateView::Done, error_page(STATUS_INTERNAL_ERROR, "Unexpected callback step"@)),
    }
}

fn error_reply(status: u16, text: &str) -> (r: CallbackAction)
    ensures
        r@ == error_page(status, text@),
{
    CallbackAction::Respond(page(status, text, true))
}

fn oauth_error_reply(e: OAuthError) -> (r: CallbackAction)
    ensures
        r@ == oauth_error_page(e),
{
    match e {
        OAuthError::ExchangeFailed => error_reply(STATUS_INTERNAL_ERROR, "Failed to exchange code"),
        OAuthError::UserInfoFetchFailed => error_reply(
            STATUS_INTERNAL_ERROR,
            "Failed to fetch user info",
        ),
        OAuthError::UserInfoParseError => error_reply(
            STATUS_INTERNAL_ERROR,
            "Failed to parse userinfo response",
        ),
        OAuthError::EmailUnverified => error_reply(STATUS_UNAUTHORIZED, "Email is not verified."),
    }
}

/// Checks the user info for `flow`: the email, and for registration the
/// name, or why the flow stops.
pub fn check_userinfo(flow: Flow, info: UserInfo) -> (r: Result<(String, String), OAuthError>)
    ensures
        match (r, userinfo_outcome(flow, info@)) {
            (Ok((e, n)), Ok((se, sn))) => e@ == se && n@ == sn,
            (Err(e), Err(se)) => e == se,
            _ => false,
        },
{
    match (info.email, info.verified_email) {
        (Some(email), Some(true)) => match flow {
            Flow::Login => Ok((email, String::new())),
            Flow::Register => match info.name {
                Some(name) => Ok((email, name)),
                None => Err(OAuthError::UserInfoParseError),
            },
        },
        (Some(_), Some(false)) => Err(OAuthError::EmailUnverified),
        _ => Err(OAuthError::UserInfoParseError),
    }
}

fn session_row(
    session_id: u128,
    user: u128,
    csrf: String,
    access_token: String,
    now: i64,
) -> (r: SessionRecord)
    requires
        now <= i64::MAX - SESSION_LIFETIME,
    ensures
        r@ == new_session_row(session_id, user, csrf@, access_token@, now as int),
{
    SessionRecord {
        session_id,
        access_token,
        refresh_token: String::new(),
        data: None,
        expires_at: now + SESSION_LIFETIME,
        csrf_token: csrf,
        user_id: user,
    }
}

/// One step of the callback flow, given the fresh identifiers and the time
/// that a new row would take.
pub fn callback_step(
    state: CallbackState,
    event: CallbackEvent,
    session_id: u128,
    user_id: u128,
    now: i64,
) -> (r: (CallbackState, CallbackAction))
    requires
        now <= i64::MAX - SESSION_LIFETIME,
    ensures
        (r.0@, r.1@) == step_spec(state@, event@, session_id, user_id, now as int),
{
    match (state, event) {
        (CallbackState::Start(flow), CallbackEvent::Query(q, issued)) => match query_value(
            &q,
            "state",
        ) {
            None => (CallbackState::Done, error_reply(STATUS_BAD_REQUEST, "Missing CSRF token")),
            Some(csrf) => {
                let matches = match &issued {
                    Some(i) => *i == csrf,
                    None => false,
                };
                if !matches {
                    (CallbackState::Done, error_reply(STATUS_BAD_REQUEST, "CSRF token mismatch"))
                } else {
                    match query_value(&q, "code") {
                        None => (CallbackState::Done, error_reply(STATUS_BAD_REQUEST, "Missing code")),
                        Some(code) => (
                            CallbackState::Exchanging { flow, csrf },
                            CallbackAction::ExchangeCode(code),
                        ),
                    }
                }
            },
        },
        (CallbackState::Exchanging { flow, csrf }, CallbackEvent::Exchanged(t)) => match t {
            None => (CallbackState::Done, oauth_error_reply(OAuthError::ExchangeFailed)),
            Some(token) => {
                let mut url = USERINFO_ENDPOINT.to_string();
                url.append(token.as_str());
                (
                    CallbackState::FetchingUser { flow, csrf, access_token: token },
                    CallbackAction::FetchUserInfo(url),
                )
            },
        },
        (
            CallbackState::FetchingUser { flow, csrf, access_token },
            CallbackEvent::UserInfo(r),
        ) => match r {
            Err(e) => (CallbackState::Done, oauth_error_reply(e)),
            Ok(info) => match check_userinfo(flow, info) {
                Err(e) => (CallbackState::Done, oauth_error_reply(e)),
                Ok((email, name)) => match flow {
                    Flow::Login => (
                        CallbackState::FindingUser { csrf, access_token },
                        CallbackAction::FindUserByEmail(email),
                    ),
                    Flow::Register => {
                        let user = UserRecord { uuid: user_id, name, email, password: None };
                        (
                            CallbackState::CreatingUser { csrf, access_token, user_id },
                            CallbackAction::InsertUser(user),
                        )
                    },
                },
            },
        },
        (CallbackState::FindingUser { csrf, access_token }, CallbackEvent::UserFound(r)) => match r {
            Err(_) => (CallbackState::Done, error_reply(STATUS_INTERNAL_ERROR, "Database query failed")),
            Ok(None) => (CallbackState::Done, error_reply(STATUS_NOT_FOUND, "User not found")),
            Ok(Some(user)) => {
                let row = session_row(session_id, user.uuid, csrf, access_token, now);
                (CallbackState::CreatingSession { session_id }, CallbackAction::InsertSession(row))
            },
        },
        (
            CallbackState::CreatingUser { csrf, access_token, user_id },
            CallbackEvent::UserInserted(r),
        ) => match r {
            Err(_) => (CallbackState::Done, error_reply(STATUS_INTERNAL_ERROR, "Failed to create user")),
            Ok(_) => {
                let row = session_row(session_id, user_id, csrf, access_token, now);
                (CallbackState::CreatingSession { session_id }, CallbackAction::InsertSession(row))
            },
        },
        (CallbackState::CreatingSession { session_id }, CallbackEvent::SessionInserted(r)) => match r {
            Err(_) => (
                CallbackState::Done,
                error_reply(STATUS_INTERNAL_ERROR, "Failed to create session"),
            ),
            Ok(_) => {
                let reply = Reply {
                    status: STATUS_OK,
                    location: None,
                    set_cookie: Some(session_cookie(session_id)),
                    body: SIGNED_IN_PAGE.to_string(),
                    html: true,
                };
                (CallbackState::Done, CallbackAction::Respond(reply))
            },
        },
        _ => (CallbackState::Done, error_reply(STATUS_INTERNAL_ERROR, "Unexpected callback step")),
    }
}

/// The `Set-Cookie` value that keeps an authorization request's CSRF token
/// for ten minutes. It is `Lax`, so that the provider's redirect back brings
/// it along.
pub open spec fn state_cookie_of(state: Seq<char>) -> Seq<char> {
    "oauth_state="@ + state + "; HttpOnly; Secure; SameSite=Lax; Path=/; Max-Age=600"@
}

/// Sends the browser to the provider's authorization URL `url`, keeping the
/// CSRF token `state` that the URL carries for the callback to compare.
pub fn authorization_redirect(url: &str, state: &str) -> (r: Reply)
    ensures
        r@ == (ReplyView {
            status: STATUS_TEMPORARY_REDIRECT,
            location: Some(url@),
            set_cookie: Some(state_cookie_of(state@)),
            body: ""@,
            html: false,
        }),
{
    let mut c = "oauth_state=".to_string();
    c.append(state);
    c.append("; HttpOnly; Secure; SameSite=Lax; Path=/; Max-Age=600");
    Reply {
        status: STATUS_TEMPORARY_REDIRECT,
        location: Some(url.to_string()),
        set_cookie: Some(c),
        body: "".to_string(),
        html: false,
    }
}

/// A code is exchanged only where the redirect's `state` is the CSRF token
/// that was issued with the authorization request.
pub proof fn lemma_exchange_needs_matching_state(
    flow: Flow,
    q: Seq<(Seq<char>, Seq<char>)>,
    issued: Option<Seq<char>>,
    session_id: u128,
    user_id: u128,
    now: int,
)
    ensures
        step_spec(StateView::Start(flow), EventView::Query(q, issued), session_id, user_id, now).1
            is ExchangeCode ==> last_value(q, "state"@) is Some && issued == last_value(
            q,
            "state"@,
        ),
{
}

/// One step of the callback flow, with fresh identifiers drawn at random and
/// the time read from the clock.
pub fn callback_advance(state: CallbackState, event: CallbackEvent) -> (r: (
    CallbackState,
    CallbackAction,
))
    ensures
        exists|session_id: u128, user_id: u128, now: int|
            0 <= now <= CLOCK_MAX && (r.0@, r.1@) == #[trigger] step_spec(
                state@,
                event@,
                session_id,
                user_id,
                now,
            ),
{
    let ghost (s0, e0) = (state@, event@);
    let session_id = new_uuid();
    let user_id = new_uuid();
    let now = now_unix_seconds();
    let r = callback_step(state, event, session_id, user_id, now);
    assert(0 <= now as int <= CLOCK_MAX && (r.0@, r.1@) == step_spec(s0, e0, session_id, user_id, now as int));
    r
}

/// The event that a fetched user-info body makes: `None` where the fetch
/// failed, a parse error where the body is not JSON, else the `email`,
/// `verified_email` and `name` members of the document.
pub fn userinfo_event(fetched: Option<String>) -> (r: CallbackEvent)
    ensures
        fetched is None ==> r@ == EventView::UserInfo(Err(OAuthError::UserInfoFetchFailed)),
        fetched matches Some(body) && !json_parses(body@) ==> r@ == EventView::UserInfo(
            Err(OAuthError::UserInfoParseError),
        ),
        fetched is Some && json_parses(fetched->0@) ==> r@ == EventView::UserInfo(
            Ok(userinfo_of(fetched->0@)),
        ),
{
    match fetched {
        None => CallbackEvent::UserInfo(Err(OAuthError::UserInfoFetchFailed)),
        Some(body) => match read_userinfo(body.as_str()) {
            None => CallbackEvent::UserInfo(Err(OAuthError::UserInfoParseError)),
            Some(info) => CallbackEvent::UserInfo(Ok(info)),
        },
    }
}

/// The actions of a run of the flow from `state` over `events`, the step at
/// index `i` using the fresh identifiers and time `fresh[i]`.
pub open spec fn run_flow(
    state: StateView,
    events: Seq<EventView>,
    fresh: Seq<(u128, u128, int)>,
) -> Seq<ActionView>
    decreases events.len(),
{
    if events.len() == 0 || fresh.len() == 0 {
        Seq::empty()
    } else {
        let (next, action) = step_spec(state, events[0], fresh[0].0, fresh[0].1, fresh[0].2);
        seq![action] + run_flow(next, events.drop_first(), fresh.drop_first())
    }
}

/// Once the flow is done, whatever comes only gets an answer: no row is
/// written.
pub proof fn lemma_done_only_answers(events: Seq<EventView>, fresh: Seq<(u128, u128, int)>)
    ensures
        forall|i: int|
            0 <= i < run_flow(StateView::Done, events, fresh).len() ==> #[trigger] run_flow(
                StateView::Done,
                events,
                fresh,
            )[i] is Respond,
    decreases events.len(),
{
    if events.len() > 0 && fresh.len() > 0 {
        lemma_done_only_answers(events.drop_first(), fresh.drop_first());
    }
}

/// User info whose email the provider has not verified ends the flow, in
/// whatever state it arrives: neither then nor later is a session row, or a
/// user row, written.
pub proof fn lemma_unverified_email_makes_no_session(
    state: StateView,
    info: UserInfoView,
    rest: Seq<EventView>,
    fresh: Seq<(u128, u128, int)>,
)
    requires
        info.verified_email == Some(false),
    ensures
        ({
            let actions = run_flow(state, seq![EventView::UserInfo(Ok(info))] + rest, fresh);
            forall|i: int|
                0 <= i < actions.len() ==> !(#[trigger] actions[i] is InsertSession)
                    && !(actions[i] is InsertUser)
        }),
{
    let events = seq![EventView::UserInfo(Ok(info))] + rest;
    if fresh.len() > 0 {
        let (next, action) = step_spec(state, events[0], fresh[0].0, fresh[0].1, fresh[0].2);
        assert(next == StateView::Done);
        assert(action is Respond);
        assert(events.drop_first() =~= rest);
        lemma_done_only_answers(rest, fresh.drop_first());
        let actions = run_flow(state, events, fresh);
        assert forall|i: int| 0 <= i < actions.len() implies !(#[trigger] actions[i] is InsertSession)
            && !(actions[i] is InsertUser) by {
            if i > 0 {
                assert(actions[i] == run_flow(StateView::Done, rest, fresh.drop_first())[i - 1]);
            }
        }
    }
}

/// The same, stated of the document: a user-info body whose
/// `verified_email` member is `false` ends the flow without any row written.
pub proof fn lemma_unverified_document_makes_no_session(
    state: StateView,
    body: Seq<char>,
    rest: Seq<EventView>,
    fresh: Seq<(u128, u128, int)>,
)
    requires
        json_flag_member(body, "verified_email"@) == Some(false),
    ensures
        ({
            let actions = run_flow(
                state,
                seq![EventView::UserInfo(Ok(userinfo_of(body)))] + rest,
                fresh,
            );
            forall|i: int|
                0 <= i < actions.len() ==> !(#[trigger] actions[i] is InsertSession)
                    && !(actions[i] is InsertUser)
        }),
{
    lemma_unverified_email_makes_no_session(state, userinfo_of(body), rest, fresh);
}

} // verus!
