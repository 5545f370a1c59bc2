//! Decisions of the user handlers.

use vstd::prelude::*;

use crate::blog::text_view;
use crate::ident::new_uuid;
use crate::models::{CreateUserModel, GetAllUsersModel, GetUserModel, UserModelPub};
use crate::records::{StoreError, UserRecord};
use crate::reply::{page, Reply, STATUS_ACCEPTED, STATUS_CREATED, STATUS_INTERNAL_ERROR, STATUS_NOT_FOUND};

verus! {

fn text(status: u16, t: &str) -> (r: Reply)
    ensures
        r@ == text_view(status, t@),
{
    page(status, t, false)
}

/// The public listing of users: names and emails, in the order given; a
/// store failure is answered 500 with an empty listing.
pub fn list_users(rows: Result<Vec<UserRecord>, StoreError>) -> (r: (u16, GetAllUsersModel))
    ensures
        match rows {
            Ok(rows) => r.0 == 200 && r.1.users@.len() == rows@.len() && forall|i: int|
                0 <= i < rows@.len() ==> (#[trigger] r.1.users@[i]).name@ == rows@[i].name@
                    && r.1.users@[i].email@ == rows@[i].email@,
            Err(_) => r.0 == STATUS_INTERNAL_ERROR && r.1.users@.len() == 0,
        },
{
    match rows {
        Err(_) => (STATUS_INTERNAL_ERROR, GetAllUsersModel { users: Vec::new() }),
        Ok(rows) => {
            let mut users: Vec<UserModelPub> = Vec::new();
            let mut i: usize = 0;
            while i < rows.len()
                invariant
                    i <= rows@.len(),
                    users@.len() == i,
                    forall|j: int|
                        0 <= j < i ==> (#[trigger] users@[j]).name@ == rows@[j].name@
                            && users@[j].email@ == rows@[j].email@,
                decreases rows@.len() - i,
            {
                users.push(UserModelPub { name: rows[i].name.clone(), email: rows[i].email.clone() });
                i = i + 1;
            }
            (200, GetAllUsersModel { users })
        },
    }
}

/// One user, or 404 where there is none and 500 where the store failed.
pub fn user_found(found: Result<Option<UserRecord>, StoreError>) -> (r: Result<GetUserModel, Reply>)
    ensures
        match (found, r) {
            (Ok(Some(u)), Ok(m)) => m.name@ == u.name@ && m.email@ == u.email@ && m.id == u.uuid,
            (Ok(None), Err(e)) => e@ == text_view(STATUS_NOT_FOUND, "User not found"@),
            (Err(_), Err(e)) => e@ == text_view(STATUS_INTERNAL_ERROR, "Failed to query user"@),
            _ => false,
        },
{
    match found {
        Ok(Some(u)) => Ok(GetUserModel { name: u.name, email: u.email, id: u.uuid }),
        Ok(None) => Err(text(STATUS_NOT_FOUND, "User not found")),
        Err(_) => Err(text(STATUS_INTERNAL_ERROR, "Failed to query user")),
    }
}

/// Before a user's name is replaced: the row must be there. `Ok` carries
/// the user's identifier.
pub fn user_to_change(found: Result<Option<UserRecord>, StoreError>) -> (r: Result<u128, Reply>)
    ensures
        match (found, r) {
            (Ok(Some(u)), Ok(id)) => id == u.uuid,
            (Ok(None), Err(e)) => e@ == text_view(STATUS_NOT_FOUND, "User not found"@),
            (Err(_), Err(e)) => e@ == text_view(STATUS_INTERNAL_ERROR, "Failed to query user"@),
            _ => false,
        },
{
    match found {
        Ok(Some(u)) => Ok(u.uuid),
        Ok(None) => Err(text(STATUS_NOT_FOUND, "User not found")),
        Err(_) => Err(text(STATUS_INTERNAL_ERROR, "Failed to query user")),
    }
}

/// After a user's name was replaced.
pub fn user_updated(done: Result<(), StoreError>) -> (r: Reply)
    ensures
        r@ == match done {
            Ok(_) => text_view(STATUS_ACCEPTED, "Updated"@),
            Err(_) => text_view(STATUS_INTERNAL_ERROR, "Failed to update user"@),
        },
{
    match done {
        Ok(_) => text(STATUS_ACCEPTED, "Updated"),
        Err(_) => text(STATUS_INTERNAL_ERROR, "Failed to update user"),
    }
}

/// The row of a user registered with a name and email, under a fresh
/// random identifier and without a password.
pub fn new_user(req: CreateUserModel) -> (r: UserRecord)
    ensures
        r.name@ == req.name@,
        r.email@ == req.email@,
        r.password is None,
{
    UserRecord { uuid: new_uuid(), name: req.name, email: req.email, password: None }
}

/// After a registered user's row was inserted.
pub fn user_registered(done: Result<(), StoreError>) -> (r: Reply)
    ensures
        r@ == match done {
            Ok(_) => text_view(STATUS_CREATED, "User created"@),
            Err(_) => text_view(STATUS_INTERNAL_ERROR, "Failed to create user"@),
        },
{
    match done {
        Ok(_) => text(STATUS_CREATED, "User created"),
        Err(_) => text(STATUS_INTERNAL_ERROR, "Failed to create user"),
    }
}

} // verus!
