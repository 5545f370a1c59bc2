//! The bodies that the user and blog handlers take and give.

use vstd::prelude::*;

verus! {

pub open spec fn strings_view(v: Option<Vec<String>>) -> Option<Seq<Seq<char>>> {
    match v {
        Some(v) => Some(v.deep_view()),
        None => None,
    }
}

/// A new blog post; `user_id` names its author.
#[derive(Clone, Debug, PartialEq, Eq)]
pub struct CreateBlogModel {
    pub title: String,
    pub content: String,
    pub user_id: u128,
    pub images: Option<Vec<String>>,
}

#[derive(Clone, Debug, PartialEq, Eq)]
pub struct UpdateBlogModel {
    pub title: String,
    pub content: String,
}

/// A blog post as it is shown; `created_at` is in seconds since the epoch.
#[derive(Clone, Debug, PartialEq, Eq)]
pub struct GetBlogModel {
    pub title: String,
    pub content: String,
    pub user_id: u128,
    pub created_at: i64,
    pub images: Option<Vec<String>>,
}

#[derive(Clone, Debug, PartialEq, Eq)]
pub struct GetAllBlogsModel {
    pub blogs: Vec<GetBlogModel>,
}

/// What a new session is made of, before it has an identifier and expiry.
#[derive(Clone, Debug, PartialEq, Eq)]
pub struct CreateUserSession {
    pub csrf_token: String,
    pub refresh_token: String,
    pub access_token: String,
    pub user_id: u128,
}

/// A session as it is read back; `expires_at` is in seconds since the epoch.
#[derive(Clone, Debug, PartialEq, Eq)]
pub struct GetUserSession {
    pub session_id: u128,
    pub expires_at: i64,
    pub csrf_token: String,
    pub refresh_token: String,
    pub access_token: String,
    pub user_id: u128,
}

#[derive(Clone, Debug, PartialEq, Eq)]
pub struct UserModel {
    pub name: String,
    pub email: String,
    pub uuid: u128,
}

#[derive(Clone, Debug, PartialEq, Eq)]
pub struct UpdateUserModel {
    pub name: String,
}

/// A user as it is shown; `id` is the user's identifier.
#[derive(Clone, Debug, PartialEq, Eq)]
pub struct GetUserModel {
    pub name: String,
    pub email: String,
    pub id: u128,
}

#[derive(Clone, Debug, PartialEq, Eq)]
pub struct UserModelPub {
    pub name: String,
    pub email: String,
}

#[derive(Clone, Debug, PartialEq, Eq)]
pub struct GetAllUsersModel {
    pub users: Vec<UserModelPub>,
}

#[derive(Clone, Debug, PartialEq, Eq)]
pub struct CreateUserModel {
    pub name: String,
    pub email: String,
}

/// A copy of a list of strings, element for element.
pub fn copy_strings(v: &Vec<String>) -> (r: Vec<String>)
    ensures
        r.deep_view() == v.deep_view(),
{
    let mut r: Vec<String> = Vec::new();
    let mut i: usize = 0;
    while i < v.len()
        invariant
            i <= v.len(),
            r@.len() == i,
            forall|j: int| 0 <= j < i ==> #[trigger] r@[j]@ == v@[j]@,
        decreases v.len() - i,
    {
        r.push(v[i].clone());
        i = i + 1;
    }
    assert(r.deep_view() =~= v.deep_view());
    r
}

pub fn copy_images(v: &Option<Vec<String>>) -> (r: Option<Vec<String>>)
    ensures
        strings_view(r) == strings_view(*v),
{
    match v {
        Some(v) => Some(copy_strings(v)),
        None => None,
    }
}

} // verus!
