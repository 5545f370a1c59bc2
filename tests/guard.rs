use blog_proj::guard::{guard_deleted, guard_loaded, guard_start, GuardNext, GuardStart};
use blog_proj::ident::id_text;
use blog_proj::records::{SessionRecord, StoreError};
use blog_proj::reply::Reply;

const NOW: i64 = 1_700_000_000;

fn row(id: u128, expires_at: i64) -> SessionRecord {
    SessionRecord {
        session_id: id,
        access_token: "token".to_string(),
        refresh_token: String::new(),
        data: None,
        expires_at,
        csrf_token: "csrf".to_string(),
        user_id: 42,
    }
}

fn refused() -> Reply {
    Reply {
        status: 401,
        location: Some("/login".to_string()),
        set_cookie: Some("session_id=deleted; HttpOnly; Secure; SameSite=Strict; Max-Age=0".to_string()),
        body: String::new(),
        html: false,
    }
}

#[test]
fn no_cookie_passes_through() {
    assert_eq!(guard_start(None), GuardStart::PassThrough);
}

#[test]
fn malformed_cookie_is_bad_request_without_lookup() {
    for bad in ["", "not-a-uuid", "12345", "550e8400-e29b-41d4-a716-44665544000z"] {
        match guard_start(Some(bad)) {
            GuardStart::Respond(r) => {
                assert_eq!(r.status, 400);
                assert_eq!(r.body, "Invalid session ID");
                assert_eq!(r.set_cookie, None);
            }
            other => panic!("expected a reply, got {:?}", other),
        }
    }
}

#[test]
fn live_session_proceeds() {
    let id = 7u128;
    let text = id_text(id);
    assert_eq!(guard_start(Some(&text)), GuardStart::Load(id));
    assert_eq!(guard_loaded(Ok(Some(row(id, NOW + 10))), NOW), GuardNext::Proceed);
    assert_eq!(guard_loaded(Ok(Some(row(id, NOW))), NOW), GuardNext::Proceed);
}

#[test]
fn expired_session_is_deleted_then_not_found() {
    let id = 9u128;
    assert_eq!(guard_loaded(Ok(Some(row(id, NOW - 1))), NOW), GuardNext::DeleteExpired(id));
    assert_eq!(guard_deleted(Ok(1)), refused());
    // the second validation finds no row: refused the same way, no deletion
    assert_eq!(guard_loaded(Ok(None), NOW), GuardNext::Respond(refused()));
    assert_eq!(guard_deleted(Ok(0)), refused());
}

#[test]
fn store_failures_are_internal_errors() {
    match guard_loaded(Err(StoreError::Failed), NOW) {
        GuardNext::Respond(r) => assert_eq!(r.status, 500),
        other => panic!("expected a reply, got {:?}", other),
    }
    assert_eq!(guard_deleted(Err(StoreError::Failed)).status, 500);
}
