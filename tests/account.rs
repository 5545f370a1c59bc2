use blog_proj::account::{
    auth_loaded, auth_start, dashboard_cached, dashboard_page, dashboard_session, dashboard_start,
    dashboard_user, login_page, logout_deleted, logout_start, AuthStep, DashboardStep, LogoutStep,
};
use blog_proj::ident::id_text;
use blog_proj::records::{SessionRecord, StoreError, UserRecord};
use blog_proj::reply::{redirect, Reply};

fn logged_out() -> Reply {
    Reply {
        status: 307,
        location: Some("/login".to_string()),
        set_cookie: Some("session_id=deleted; HttpOnly; Secure; SameSite=Strict; Max-Age=0".to_string()),
        body: String::new(),
        html: false,
    }
}

fn session(id: u128, user: u128) -> SessionRecord {
    SessionRecord {
        session_id: id,
        access_token: "t".to_string(),
        refresh_token: String::new(),
        data: None,
        expires_at: 10,
        csrf_token: "c".to_string(),
        user_id: user,
    }
}

#[test]
fn logout_twice_answers_the_same() {
    let text = id_text(5);
    assert_eq!(logout_start(Some(&text)), LogoutStep::Delete(5));
    let first = logout_deleted(Ok(1));
    assert_eq!(logout_start(Some(&text)), LogoutStep::Delete(5));
    let second = logout_deleted(Ok(0));
    assert_eq!(first, logged_out());
    assert_eq!(second, first);
}

#[test]
fn logout_without_cookie_or_with_bad_cookie() {
    assert_eq!(logout_start(None), LogoutStep::Respond(redirect("/login")));
    match logout_start(Some("nope")) {
        LogoutStep::Respond(r) => {
            assert_eq!(r.status, 400);
            assert_eq!(r.body, "Invalid session ID format.");
        }
        other => panic!("expected a reply, got {:?}", other),
    }
    assert_eq!(logout_deleted(Err(StoreError::Failed)).body, "Failed to delete session.");
}

#[test]
fn auth_start_and_existing_session() {
    assert_eq!(auth_start(None), AuthStep::Authorize);
    let text = id_text(3);
    assert_eq!(auth_start(Some(&text)), AuthStep::Load(3));
    assert_eq!(auth_loaded(Ok(Some(session(3, 1)))), AuthStep::Respond(redirect("/dashboard")));
    assert_eq!(auth_loaded(Ok(None)), AuthStep::Authorize);
    match auth_loaded(Err(StoreError::Failed)) {
        AuthStep::Respond(r) => assert_eq!(r.status, 500),
        other => panic!("expected a reply, got {:?}", other),
    }
    match auth_start(Some("x")) {
        AuthStep::Respond(r) => assert_eq!(r.status, 400),
        other => panic!("expected a reply, got {:?}", other),
    }
}

#[test]
fn dashboard_steps() {
    let text = id_text(8);
    assert_eq!(dashboard_start(Some(&text)), DashboardStep::CheckCache(8));
    assert_eq!(dashboard_cached(8, Ok(true)), DashboardStep::LoadSession(8));
    assert_eq!(dashboard_cached(8, Ok(false)), DashboardStep::Respond(redirect("/login")));
    assert_eq!(dashboard_session(Ok(Some(session(8, 42)))), DashboardStep::LoadUser(42));
    let page = dashboard_user(Ok(Some(UserRecord {
        uuid: 42,
        name: "Ann".to_string(),
        email: "a@b.com".to_string(),
        password: None,
    })));
    assert_eq!(page.status, 200);
    assert_eq!(
        page.body,
        "<h1>User info : <br> name - Ann, <br> email - a@b.com</h1><form action=\"/logout\"><input type=\"submit\" value=\"Logout\" /></form>"
    );
    assert_eq!(dashboard_user(Ok(None)).status, 404);
    assert_eq!(dashboard_start(None), DashboardStep::Respond(dashboard_page("", "")));
    assert_eq!(dashboard_session(Ok(None)), DashboardStep::Respond(dashboard_page("", "")));
    match dashboard_start(Some("bad")) {
        DashboardStep::Respond(r) => assert_eq!(r.status, 400),
        other => panic!("expected a reply, got {:?}", other),
    }
}

#[test]
fn login_page_offers_both_flows() {
    let p = login_page();
    assert_eq!(p.status, 200);
    assert!(p.html);
    assert!(p.body.contains("/auth_sign_on"));
    assert!(p.body.contains("action=\"/auth\""));
}
