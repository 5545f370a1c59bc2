use blog_proj::ident::id_text;
use blog_proj::oauth::{
    authorization_redirect, callback_advance, callback_step, check_userinfo, userinfo_event, CallbackAction, CallbackEvent,
    CallbackState, Flow, OAuthError, SIGNED_IN_PAGE,
};
use blog_proj::query::query_value;
use blog_proj::records::{SessionRecord, StoreError, UserRecord};
use blog_proj::userinfo::{read_userinfo, UserInfo};

const NOW: i64 = 1_700_000_000;
const SID: u128 = 0xaaaa;
const UID: u128 = 0xbbbb;

fn pairs(items: &[(&str, &str)]) -> Vec<(String, String)> {
    items.iter().map(|(k, v)| (k.to_string(), v.to_string())).collect()
}

fn step(state: CallbackState, event: CallbackEvent) -> (CallbackState, CallbackAction) {
    callback_step(state, event, SID, UID, NOW)
}

fn user(uuid: u128, email: &str) -> UserRecord {
    UserRecord { uuid, name: "A".to_string(), email: email.to_string(), password: None }
}

fn reply_of(a: CallbackAction) -> (u16, String) {
    match a {
        CallbackAction::Respond(r) => (r.status, r.body),
        other => panic!("expected a reply, got {:?}", other),
    }
}

#[test]
fn login_with_verified_email_creates_session() {
    let (s, a) = step(
        CallbackState::Start(Flow::Login),
        CallbackEvent::Query(
            pairs(&[("state", "csrf-1"), ("code", "abc123")]),
            Some("csrf-1".to_string()),
        ),
    );
    assert_eq!(a, CallbackAction::ExchangeCode("abc123".to_string()));
    let (s, a) = step(s, CallbackEvent::Exchanged(Some("tok".to_string())));
    assert_eq!(
        a,
        CallbackAction::FetchUserInfo(
            "https://www.googleapis.com/oauth2/v2/userinfo?oauth_token=tok".to_string()
        )
    );
    let ev = userinfo_event(Some(r#"{"email":"a@b.com","verified_email":true}"#.to_string()));
    let (s, a) = step(s, ev);
    assert_eq!(a, CallbackAction::FindUserByEmail("a@b.com".to_string()));
    let (s, a) = step(s, CallbackEvent::UserFound(Ok(Some(user(42, "a@b.com")))));
    let expected = SessionRecord {
        session_id: SID,
        access_token: "tok".to_string(),
        refresh_token: String::new(),
        data: None,
        expires_at: NOW + 3600,
        csrf_token: "csrf-1".to_string(),
        user_id: 42,
    };
    assert_eq!(a, CallbackAction::InsertSession(expected));
    let (s, a) = step(s, CallbackEvent::SessionInserted(Ok(())));
    assert_eq!(s, CallbackState::Done);
    match a {
        CallbackAction::Respond(r) => {
            assert_eq!(r.status, 200);
            assert_eq!(r.body, SIGNED_IN_PAGE);
            assert_eq!(
                r.set_cookie,
                Some(format!("session_id={}; HttpOnly; Secure; SameSite=Strict; Path=/", id_text(SID)))
            );
        }
        other => panic!("expected a reply, got {:?}", other),
    }
}

#[test]
fn unverified_email_stops_login() {
    let state = CallbackState::FetchingUser {
        flow: Flow::Login,
        csrf: "c".to_string(),
        access_token: "t".to_string(),
    };
    let ev = userinfo_event(Some(r#"{"email":"a@b.com","verified_email":false}"#.to_string()));
    let (s, a) = step(state, ev);
    assert_eq!(s, CallbackState::Done);
    assert_eq!(reply_of(a), (401, "Email is not verified.".to_string()));
    // whatever follows gets only an answer
    let (s, a) = step(s, CallbackEvent::SessionInserted(Ok(())));
    assert_eq!(s, CallbackState::Done);
    assert_eq!(reply_of(a).0, 500);
}

#[test]
fn unverified_email_stops_registration() {
    let info = UserInfo {
        email: Some("a@b.com".to_string()),
        verified_email: Some(false),
        name: Some("A".to_string()),
    };
    assert_eq!(check_userinfo(Flow::Register, info), Err(OAuthError::EmailUnverified));
}

#[test]
fn registration_inserts_user_then_session() {
    let state = CallbackState::FetchingUser {
        flow: Flow::Register,
        csrf: "c".to_string(),
        access_token: "t".to_string(),
    };
    let ev = userinfo_event(Some(
        r#"{"email":"n@b.com","verified_email":true,"name":"Nina"}"#.to_string(),
    ));
    let (s, a) = step(state, ev);
    assert_eq!(
        a,
        CallbackAction::InsertUser(UserRecord {
            uuid: UID,
            name: "Nina".to_string(),
            email: "n@b.com".to_string(),
            password: None
        })
    );
    let (_, a) = step(s, CallbackEvent::UserInserted(Ok(())));
    match a {
        CallbackAction::InsertSession(row) => {
            assert_eq!(row.user_id, UID);
            assert_eq!(row.session_id, SID);
            assert_eq!(row.csrf_token, "c");
            assert_eq!(row.expires_at, NOW + 3600);
        }
        other => panic!("expected an insertion, got {:?}", other),
    }
}

#[test]
fn registration_needs_a_name() {
    let info = UserInfo { email: Some("a@b.com".to_string()), verified_email: Some(true), name: None };
    assert_eq!(check_userinfo(Flow::Register, info), Err(OAuthError::UserInfoParseError));
}

#[test]
fn missing_state_or_code() {
    let (s, a) = step(CallbackState::Start(Flow::Login), CallbackEvent::Query(pairs(&[("code", "x")]), Some("s".to_string())));
    assert_eq!(s, CallbackState::Done);
    assert_eq!(reply_of(a), (400, "Missing CSRF token".to_string()));
    let (_, a) = step(CallbackState::Start(Flow::Register), CallbackEvent::Query(pairs(&[("state", "s")]), Some("s".to_string())));
    assert_eq!(reply_of(a), (400, "Missing code".to_string()));
}

#[test]
fn failed_exchange_and_fetch() {
    let (_, a) = step(
        CallbackState::Exchanging { flow: Flow::Login, csrf: "c".to_string() },
        CallbackEvent::Exchanged(None),
    );
    assert_eq!(reply_of(a), (500, "Failed to exchange code".to_string()));
    let fetching = || CallbackState::FetchingUser {
        flow: Flow::Login,
        csrf: "c".to_string(),
        access_token: "t".to_string(),
    };
    let (_, a) = step(fetching(), userinfo_event(None));
    assert_eq!(reply_of(a), (500, "Failed to fetch user info".to_string()));
    let (_, a) = step(fetching(), userinfo_event(Some("not json".to_string())));
    assert_eq!(reply_of(a), (500, "Failed to parse userinfo response".to_string()));
    let (_, a) = step(fetching(), userinfo_event(Some(r#"{"verified_email":true}"#.to_string())));
    assert_eq!(reply_of(a), (500, "Failed to parse userinfo response".to_string()));
}

#[test]
fn unknown_user_and_store_failures() {
    let finding = || CallbackState::FindingUser { csrf: "c".to_string(), access_token: "t".to_string() };
    let (_, a) = step(finding(), CallbackEvent::UserFound(Ok(None)));
    assert_eq!(reply_of(a), (404, "User not found".to_string()));
    let (_, a) = step(finding(), CallbackEvent::UserFound(Err(StoreError::Failed)));
    assert_eq!(reply_of(a).0, 500);
    let (_, a) = step(CallbackState::CreatingSession { session_id: SID }, CallbackEvent::SessionInserted(Err(StoreError::Failed)));
    assert_eq!(reply_of(a), (500, "Failed to create session".to_string()));
}

#[test]
fn advance_draws_fresh_session() {
    let state = CallbackState::FindingUser { csrf: "c".to_string(), access_token: "t".to_string() };
    let (_, a) = callback_advance(state, CallbackEvent::UserFound(Ok(Some(user(42, "a@b.com")))));
    match a {
        CallbackAction::InsertSession(row) => {
            assert_eq!(row.user_id, 42);
            assert_eq!(row.csrf_token, "c");
            assert!(row.expires_at > 1_600_000_000 + 3600);
            assert_eq!((row.session_id >> 76) & 0xf, 4);
            assert_eq!((row.session_id >> 62) & 0x3, 2);
        }
        other => panic!("expected an insertion, got {:?}", other),
    }
}

#[test]
fn query_value_takes_last_pair() {
    let q = pairs(&[("state", "a"), ("code", "c"), ("state", "b")]);
    assert_eq!(query_value(&q, "state"), Some("b".to_string()));
    assert_eq!(query_value(&q, "code"), Some("c".to_string()));
    assert_eq!(query_value(&q, "scope"), None);
    assert_eq!(query_value(&Vec::new(), "state"), None);
}

#[test]
fn read_userinfo_fields() {
    let info = read_userinfo(r#"{"email":"a@b.com","verified_email":true,"name":"A"}"#).unwrap();
    assert_eq!(info.email, Some("a@b.com".to_string()));
    assert_eq!(info.verified_email, Some(true));
    assert_eq!(info.name, Some("A".to_string()));
    let odd = read_userinfo(r#"{"email":5,"verified_email":"yes"}"#).unwrap();
    assert_eq!(odd.email, None);
    assert_eq!(odd.verified_email, None);
    assert!(read_userinfo("{").is_none());
}

#[test]
fn state_must_match_issued_token() {
    let q = || pairs(&[("state", "from-provider"), ("code", "abc")]);
    let (s, a) = step(
        CallbackState::Start(Flow::Login),
        CallbackEvent::Query(q(), Some("issued".to_string())),
    );
    assert_eq!(s, CallbackState::Done);
    assert_eq!(reply_of(a), (400, "CSRF token mismatch".to_string()));
    let (_, a) = step(CallbackState::Start(Flow::Register), CallbackEvent::Query(q(), None));
    assert_eq!(reply_of(a), (400, "CSRF token mismatch".to_string()));
    let (s, a) = step(
        CallbackState::Start(Flow::Register),
        CallbackEvent::Query(q(), Some("from-provider".to_string())),
    );
    assert_eq!(a, CallbackAction::ExchangeCode("abc".to_string()));
    assert_eq!(
        s,
        CallbackState::Exchanging { flow: Flow::Register, csrf: "from-provider".to_string() }
    );
}

#[test]
fn authorization_redirect_keeps_state() {
    let r = authorization_redirect("https://provider/auth?state=xyz", "xyz");
    assert_eq!(r.status, 307);
    assert_eq!(r.location, Some("https://provider/auth?state=xyz".to_string()));
    assert_eq!(
        r.set_cookie,
        Some("oauth_state=xyz; HttpOnly; Secure; SameSite=Lax; Path=/; Max-Age=600".to_string())
    );
}

#[test]
fn userinfo_event_reads_the_document() {
    let ev = userinfo_event(Some(r#"{"email":"e@f.g","verified_email":false,"name":"N"}"#.to_string()));
    assert_eq!(
        ev,
        CallbackEvent::UserInfo(Ok(UserInfo {
            email: Some("e@f.g".to_string()),
            verified_email: Some(false),
            name: Some("N".to_string()),
        }))
    );
    assert_eq!(
        userinfo_event(Some("[1, 2]".to_string())),
        CallbackEvent::UserInfo(Ok(UserInfo { email: None, verified_email: None, name: None }))
    );
}
