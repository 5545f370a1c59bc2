//! The state of the persistence service and of the session existence cache,
//! as the flows of this crate see it, and what each store operation does to
//! it. The flows decide which operation comes next; these functions say what
//! the operation finds and leaves behind.

use vstd::prelude::*;

use crate::records::{SessionView, StoreError, UserView};

verus! {

/// A blog row as the handlers write it; the store adds its number and
/// creation time.
pub ghost struct BlogEntry {
    pub title: Seq<char>,
    pub content: Seq<char>,
    pub user_id: u128,
    pub images: Option<Seq<Seq<char>>>,
}

pub ghost struct Stores {
    /// Session rows by session identifier.
    pub sessions: Map<u128, SessionView>,
    /// Identifiers the existence cache currently holds.
    pub cache: Set<u128>,
    /// User rows by user identifier.
    pub users: Map<u128, UserView>,
    /// Blog rows, in the order they were written.
    pub blogs: Seq<BlogEntry>,
}

/// Rows are keyed by their own identifiers, emails are unique, and the cache
/// names no session whose row is gone.
pub open spec fn stores_wf(s: Stores) -> bool {
    &&& forall|k: u128| #[trigger] s.sessions.contains_key(k) ==> s.sessions[k].session_id == k
    &&& forall|k: u128| #[trigger] s.users.contains_key(k) ==> s.users[k].uuid == k
    &&& forall|a: u128, b: u128|
        s.users.contains_key(a) && s.users.contains_key(b) && #[trigger] s.users[a].email
            == #[trigger] s.users[b].email ==> a == b
    &&& s.cache.subset_of(s.sessions.dom())
}

/// Reading a session row by identifier.
pub open spec fn find_session(s: Stores, id: u128) -> Option<SessionView> {
    if s.sessions.contains_key(id) {
        Some(s.sessions[id])
    } else {
        None
    }
}

/// Reading a user row by identifier.
pub open spec fn find_user(s: Stores, id: u128) -> Option<UserView> {
    if s.users.contains_key(id) {
        Some(s.users[id])
    } else {
        None
    }
}

/// Deleting a session row and its cache entry; the count of rows deleted.
pub open spec fn delete_session(s: Stores, id: u128) -> (u64, Stores) {
    let n: u64 = if s.sessions.contains_key(id) {
        1
    } else {
        0
    };
    (n, Stores { sessions: s.sessions.remove(id), cache: s.cache.remove(id), ..s })
}

/// Inserting a session row and recording it in the cache; refused where the
/// identifier is taken.
pub open spec fn insert_session(s: Stores, row: SessionView) -> (Result<(), StoreError>, Stores) {
    if s.sessions.contains_key(row.session_id) {
        (Err(StoreError::Failed), s)
    } else {
        (
            Ok(()),
            Stores {
                sessions: s.sessions.insert(row.session_id, row),
                cache: s.cache.insert(row.session_id),
                ..s
            },
        )
    }
}

/// Inserting a blog row.
pub open spec fn insert_blog(s: Stores, blog: BlogEntry) -> (Result<(), StoreError>, Stores) {
    (Ok(()), Stores { blogs: s.blogs.push(blog), ..s })
}

/// A session row that was inserted reads back unchanged, with the same
/// expiry, CSRF token and owner, and the store stays well formed.
pub proof fn lemma_session_round_trip(s: Stores, row: SessionView)
    requires
        stores_wf(s),
        !s.sessions.contains_key(row.session_id),
    ensures
        insert_session(s, row).0 is Ok,
        find_session(insert_session(s, row).1, row.session_id) == Some(row),
        stores_wf(insert_session(s, row).1),
{
    let s2 = insert_session(s, row).1;
    assert(s2.cache.subset_of(s2.sessions.dom()));
}

/// Deleting a session removes its row and cache entry, keeps the store well
/// formed, and a second deletion finds nothing and changes nothing.
pub proof fn lemma_delete_session_twice(s: Stores, id: u128)
    requires
        stores_wf(s),
    ensures
        find_session(delete_session(s, id).1, id) is None,
        !delete_session(s, id).1.cache.contains(id),
        stores_wf(delete_session(s, id).1),
        delete_session(delete_session(s, id).1, id).0 == 0,
        delete_session(delete_session(s, id).1, id).1 == delete_session(s, id).1,
{
    let s1 = delete_session(s, id).1;
    assert(s1.cache.subset_of(s1.sessions.dom()));
    let s2 = delete_session(s1, id).1;
    assert(s2.sessions =~= s1.sessions);
    assert(s2.cache =~= s1.cache);
}

} // verus!
