//! The request guard: before a protected route runs, the session named by
//! the cookie is checked, and an expired one is removed.

use vstd::prelude::*;

use crate::clock::{now_unix_seconds, CLOCK_MAX};
use crate::ident::{lemma_uuid_text_round_trip, parse_uuid, uuid_from_text, uuid_text_of};
use crate::records::{SessionRecord, SessionView, StoreError};
use crate::store::{delete_session, find_session, insert_session, stores_wf, Stores};
use crate::reply::{
    logged_out, logged_out_view, page, page_view, Reply, ReplyView, STATUS_BAD_REQUEST,
    STATUS_INTERNAL_ERROR, STATUS_UNAUTHORIZED,
};

verus! {

/// The first step of the guard, decided from the cookie alone.
#[derive(Debug, PartialEq, Eq)]
pub enum GuardStart {
    /// No session cookie: the request goes on unauthenticated.
    PassThrough,
    /// The request is answered at once.
    Respond(Reply),
    /// The session row with this identifier is to be read.
    Load(u128),
}

/// The step after the session row has been read.
#[derive(Debug, PartialEq, Eq)]
pub enum GuardNext {
    /// The session is live: the request goes on unchanged.
    Proceed,
    Respond(Reply),
    /// The session has expired: its row, and its cache entry, are to be
    /// deleted, and the result handed to `guard_deleted`.
    DeleteExpired(u128),
}

pub ghost enum GuardStartView {
    PassThrough,
    Respond(ReplyView),
    Load(u128),
}

pub ghost enum GuardNextView {
    Proceed,
    Respond(ReplyView),
    DeleteExpired(u128),
}

impl View for GuardStart {
    type V = GuardStartView;

    open spec fn view(&self) -> GuardStartView {
        match self {
            GuardStart::PassThrough => GuardStartView::PassThrough,
            GuardStart::Respond(r) => GuardStartView::Respond(r@),
            GuardStart::Load(id) => GuardStartView::Load(*id),
        }
    }
}

impl View for GuardNext {
    type V = GuardNextView;

    open spec fn view(&self) -> GuardNextView {
        match self {
            GuardNext::Proceed => GuardNextView::Proceed,
            GuardNext::Respond(r) => GuardNextView::Respond(r@),
            GuardNext::DeleteExpired(id) => GuardNextView::DeleteExpired(*id),
        }
    }
}

pub open spec fn invalid_session_view() -> ReplyView {
    page_view(STATUS_BAD_REQUEST, "Invalid session ID"@, false)
}

pub open spec fn store_failure_view() -> ReplyView {
    page_view(STATUS_INTERNAL_ERROR, ""@, false)
}

pub open spec fn refused_view() -> ReplyView {
    logged_out_view(STATUS_UNAUTHORIZED)
}

pub open spec fn str_opt_view(o: Option<&str>) -> Option<Seq<char>> {
    match o {
        Some(s) => Some(s@),
        None => None,
    }
}

pub open spec fn guard_start_spec(cookie: Option<Seq<char>>) -> GuardStartView {
    match cookie {
        None => GuardStartView::PassThrough,
        Some(c) => match uuid_from_text(c) {
            None => GuardStartView::Respond(invalid_session_view()),
            Some(id) => GuardStartView::Load(id),
        },
    }
}

pub open spec fn guard_loaded_spec(found: Result<Option<SessionView>, StoreError>, now: int) -> GuardNextView {
    match found {
        Err(_) => GuardNextView::Respond(store_failure_view()),
        Ok(None) => GuardNextView::Respond(refused_view()),
        Ok(Some(row)) => if row.expires_at < now {
            GuardNextView::DeleteExpired(row.session_id)
        } else {
            GuardNextView::Proceed
        },
    }
}

pub open spec fn guard_deleted_spec(deleted: Result<u64, StoreError>) -> ReplyView {
    match deleted {
        Ok(_) => refused_view(),
        Err(_) => store_failure_view(),
    }
}

pub open spec fn found_view(found: Result<Option<SessionRecord>, StoreError>) -> Result<Option<SessionView>, StoreError> {
    match found {
        Ok(Some(row)) => Ok(Some(row@)),
        Ok(None) => Ok(None),
        Err(e) => Err(e),
    }
}

/// Decides from the `session_id` cookie, if any: no cookie lets the request
/// through; a value that is no identifier is answered 400 before any store
/// is asked; otherwise the session row is to be read.
pub fn guard_start(cookie: Option<&str>) -> (r: GuardStart)
    ensures
        r@ == guard_start_spec(str_opt_view(cookie)),
{
    match cookie {
        None => GuardStart::PassThrough,
        Some(c) => match parse_uuid(c) {
            None => GuardStart::Respond(page(STATUS_BAD_REQUEST, "Invalid session ID", false)),
            Some(id) => GuardStart::Load(id),
        },
    }
}

/// Decides from the session row that was read and the time `now` (seconds
/// since the epoch): a store failure is answered 500; a missing row is
/// refused with 401 and the cookie removed; a row whose `expires_at` lies
/// before `now` is to be deleted; any other row lets the request through.
pub fn guard_loaded(found: Result<Option<SessionRecord>, StoreError>, now: i64) -> (r: GuardNext)
    ensures
        r@ == guard_loaded_spec(found_view(found), now as int),
{
    match found {
        Err(_) => GuardNext::Respond(page(STATUS_INTERNAL_ERROR, "", false)),
        Ok(None) => GuardNext::Respond(logged_out(STATUS_UNAUTHORIZED)),
        Ok(Some(row)) => if row.expires_at < now {
            GuardNext::DeleteExpired(row.session_id)
        } else {
            GuardNext::Proceed
        },
    }
}

/// `guard_loaded` at the time the clock reads now.
pub fn guard_loaded_now(found: Result<Option<SessionRecord>, StoreError>) -> (r: GuardNext)
    ensures
        exists|now: int|
            0 <= now <= CLOCK_MAX && r@ == #[trigger] guard_loaded_spec(found_view(found), now),
{
    let ghost f = found_view(found);
    let now = now_unix_seconds();
    let r = guard_loaded(found, now);
    assert(0 <= now as int <= CLOCK_MAX && r@ == guard_loaded_spec(f, now as int));
    r
}

/// Answers once an expired session has been deleted: refused with 401 and
/// the cookie removed, whether or not a row was still there; a store failure
/// is answered 500.
pub fn guard_deleted(deleted: Result<u64, StoreError>) -> (r: Reply)
    ensures
        r@ == guard_deleted_spec(deleted),
{
    match deleted {
        Ok(_) => logged_out(STATUS_UNAUTHORIZED),
        Err(_) => page(STATUS_INTERNAL_ERROR, "", false),
    }
}

/// What the guard does with a request as a whole.
pub ghost enum GuardOutcome {
    Proceed,
    Respond(ReplyView),
}

/// A whole run of the guard against the stores `s`: `guard_start`, then the
/// row read, `guard_loaded`, then the deletion and `guard_deleted`. The result
/// is the outcome and the stores afterwards.
pub open spec fn validate(s: Stores, cookie: Option<Seq<char>>, now: int) -> (GuardOutcome, Stores) {
    match guard_start_spec(cookie) {
        GuardStartView::PassThrough => (GuardOutcome::Proceed, s),
        GuardStartView::Respond(r) => (GuardOutcome::Respond(r), s),
        GuardStartView::Load(id) => match guard_loaded_spec(Ok(find_session(s, id)), now) {
            GuardNextView::Proceed => (GuardOutcome::Proceed, s),
            GuardNextView::Respond(r) => (GuardOutcome::Respond(r), s),
            GuardNextView::DeleteExpired(k) => {
                let (n, s2) = delete_session(s, k);
                (GuardOutcome::Respond(guard_deleted_spec(Ok(n))), s2)
            },
        },
    }
}

/// A live session (its expiry not before `now`) lets the request through and
/// leaves every store as it was.
pub proof fn lemma_live_session_passes(s: Stores, cookie: Seq<char>, now: int)
    requires
        stores_wf(s),
        uuid_from_text(cookie) is Some,
        s.sessions.contains_key(uuid_from_text(cookie)->0),
        s.sessions[uuid_from_text(cookie)->0].expires_at >= now,
    ensures
        validate(s, Some(cookie), now) == (GuardOutcome::Proceed, s),
{
}

/// An expired session is deleted, row and cache entry, and the request is
/// refused with the cookie removed. Validating the same cookie again finds no
/// row: it is refused the same way, as "not found" rather than as a failure,
/// and deletes nothing more.
pub proof fn lemma_expired_session_deleted_once(s: Stores, cookie: Seq<char>, now: int)
    requires
        stores_wf(s),
        uuid_from_text(cookie) is Some,
        s.sessions.contains_key(uuid_from_text(cookie)->0),
        s.sessions[uuid_from_text(cookie)->0].expires_at < now,
    ensures
        ({
            let id = uuid_from_text(cookie)->0;
            let (first, s1) = validate(s, Some(cookie), now);
            let (second, s2) = validate(s1, Some(cookie), now);
            &&& first == GuardOutcome::Respond(refused_view())
            &&& s1 == delete_session(s, id).1
            &&& delete_session(s, id).0 == 1
            &&& !s1.sessions.contains_key(id) && !s1.cache.contains(id)
            &&& guard_loaded_spec(Ok(find_session(s1, id)), now) == GuardNextView::Respond(
                refused_view(),
            )
            &&& second == GuardOutcome::Respond(refused_view())
            &&& s2 == s1
        }),
{
}

/// A session that was just inserted is let through, until it expires, when
/// the browser sends back the identifier text that its cookie carries.
pub proof fn lemma_new_session_passes(s: Stores, row: SessionView, now: int)
    requires
        stores_wf(s),
        !s.sessions.contains_key(row.session_id),
        now <= row.expires_at,
    ensures
        ({
            let s1 = insert_session(s, row).1;
            validate(s1, Some(uuid_text_of(row.session_id)), now) == (GuardOutcome::Proceed, s1)
        }),
{
    lemma_uuid_text_round_trip(row.session_id);
    crate::store::lemma_session_round_trip(s, row);
}

/// A cookie that names no identifier is answered 400 without reading any
/// store, and no store changes.
pub proof fn lemma_malformed_cookie_untouched(s: Stores, cookie: Seq<char>, now: int)
    requires
        uuid_from_text(cookie) is None,
    ensures
        guard_start_spec(Some(cookie)) == GuardStartView::Respond(invalid_session_view()),
        validate(s, Some(cookie), now) == (GuardOutcome::Respond(invalid_session_view()), s),
{
}

/// The guard keeps the stores well formed: in particular the cache never
/// names a session whose row it has deleted.
pub proof fn lemma_validate_keeps_stores_wf(s: Stores, cookie: Option<Seq<char>>, now: int)
    requires
        stores_wf(s),
    ensures
        stores_wf(validate(s, cookie, now).1),
{
    if let Some(c) = cookie {
        if let Some(id) = uuid_from_text(c) {
            if s.sessions.contains_key(id) {
                crate::store::lemma_delete_session_twice(s, id);
            }
        }
    }
}

} // verus!
