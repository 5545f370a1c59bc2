//! The rows that the persistence service keeps, and the failures it reports.

use vstd::prelude::*;

verus! {

/// A failure reported by the persistence service or the existence cache.
#[derive(Clone, Copy, Debug, PartialEq, Eq, Structural)]
pub enum StoreError {
    Failed,
}

/// A user row: display name, unique email, optional password, and the
/// identifier that sessions and blogs refer to.
#[derive(Clone, Debug, PartialEq, Eq)]
pub struct UserRecord {
    pub uuid: u128,
    pub name: String,
    pub email: String,
    pub password: Option<String>,
}

pub ghost struct UserView {
    pub uuid: u128,
    pub name: Seq<char>,
    pub email: Seq<char>,
    pub password: Option<Seq<char>>,
}

impl View for UserRecord {
    type V = UserView;

    open spec fn view(&self) -> UserView {
        UserView {
            uuid: self.uuid,
            name: self.name@,
            email: self.email@,
            password: self.password.deep_view(),
        }
    }
}

/// A session row. `expires_at` is in seconds since the Unix epoch.
#[derive(Clone, Debug, PartialEq, Eq)]
pub struct SessionRecord {
    pub session_id: u128,
    pub access_token: String,
    pub refresh_token: String,
    pub data: Option<String>,
    pub expires_at: i64,
    pub csrf_token: String,
    pub user_id: u128,
}

pub ghost struct SessionView {
    pub session_id: u128,
    pub access_token: Seq<char>,
    pub refresh_token: Seq<char>,
    pub data: Option<Seq<char>>,
    pub expires_at: int,
    pub csrf_token: Seq<char>,
    pub user_id: u128,
}

impl View for SessionRecord {
    type V = SessionView;

    open spec fn view(&self) -> SessionView {
        SessionView {
            session_id: self.session_id,
            access_token: self.access_token@,
            refresh_token: self.refresh_token@,
            data: self.data.deep_view(),
            expires_at: self.expires_at as int,
            csrf_token: self.csrf_token@,
            user_id: self.user_id,
        }
    }
}

/// A blog row. `created_at` is in seconds since the Unix epoch.
#[derive(Clone, Debug, PartialEq, Eq)]
pub struct BlogRecord {
    pub id: i32,
    pub title: String,
    pub content: String,
    pub images: Option<Vec<String>>,
    pub created_at: i64,
    pub user_id: u128,
}

} // verus!
