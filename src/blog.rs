//! Decisions of the blog handlers: what to answer for what the store gave,
//! and the check that a new post has an existing author.

use vstd::prelude::*;

use crate::models::{copy_images, strings_view, CreateBlogModel, GetAllBlogsModel, GetBlogModel};
use crate::records::{BlogRecord, StoreError, UserRecord};
use crate::reply::{
    page, page_view, Reply, ReplyView, STATUS_ACCEPTED, STATUS_CREATED, STATUS_FORBIDDEN,
    STATUS_INTERNAL_ERROR, STATUS_NOT_FOUND,
};
use crate::store::{find_user, insert_blog, BlogEntry, Stores};

verus! {

pub ghost struct BlogShown {
    pub title: Seq<char>,
    pub content: Seq<char>,
    pub user_id: u128,
    pub created_at: int,
    pub images: Option<Seq<Seq<char>>>,
}

impl View for GetBlogModel {
    type V = BlogShown;

    open spec fn view(&self) -> BlogShown {
        BlogShown {
            title: self.title@,
            content: self.content@,
            user_id: self.user_id,
            created_at: self.created_at as int,
            images: strings_view(self.images),
        }
    }
}

impl View for CreateBlogModel {
    type V = BlogEntry;

    open spec fn view(&self) -> BlogEntry {
        BlogEntry {
            title: self.title@,
            content: self.content@,
            user_id: self.user_id,
            images: strings_view(self.images),
        }
    }
}

/// How a stored blog row is shown.
pub open spec fn shown(b: BlogRecord) -> BlogShown {
    BlogShown {
        title: b.title@,
        content: b.content@,
        user_id: b.user_id,
        created_at: b.created_at as int,
        images: strings_view(b.images),
    }
}

pub open spec fn text_view(status: u16, text: Seq<char>) -> ReplyView {
    page_view(status, text, false)
}

fn text(status: u16, t: &str) -> (r: Reply)
    ensures
        r@ == text_view(status, t@),
{
    page(status, t, false)
}

/// A stored blog row as it is shown.
pub fn show_blog(b: &BlogRecord) -> (r: GetBlogModel)
    ensures
        r@ == shown(*b),
{
    GetBlogModel {
        title: b.title.clone(),
        content: b.content.clone(),
        user_id: b.user_id,
        created_at: b.created_at,
        images: copy_images(&b.images),
    }
}

/// The listing of blog rows, in their order; a store failure is answered
/// 500 with an empty listing.
pub fn list_blogs(rows: Result<Vec<BlogRecord>, StoreError>) -> (r: (u16, GetAllBlogsModel))
    ensures
        match rows {
            Ok(rows) => r.0 == 200 && r.1.blogs@.len() == rows@.len() && forall|i: int|
                0 <= i < rows@.len() ==> #[trigger] r.1.blogs@[i]@ == shown(rows@[i]),
            Err(_) => r.0 == STATUS_INTERNAL_ERROR && r.1.blogs@.len() == 0,
        },
{
    match rows {
        Err(_) => (STATUS_INTERNAL_ERROR, GetAllBlogsModel { blogs: Vec::new() }),
        Ok(rows) => {
            let mut blogs: Vec<GetBlogModel> = Vec::new();
            let mut i: usize = 0;
            while i < rows.len()
                invariant
                    i <= rows@.len(),
                    blogs@.len() == i,
                    forall|j: int| 0 <= j < i ==> #[trigger] blogs@[j]@ == shown(rows@[j]),
                decreases rows@.len() - i,
            {
                blogs.push(show_blog(&rows[i]));
                i = i + 1;
            }
            (200, GetAllBlogsModel { blogs })
        },
    }
}

/// One blog post, or 404 where there is none and 500 where the store failed.
pub fn blog_found(found: Result<Option<BlogRecord>, StoreError>) -> (r: Result<GetBlogModel, Reply>)
    ensures
        match (found, r) {
            (Ok(Some(b)), Ok(m)) => m@ == shown(b),
            (Ok(None), Err(e)) => e@ == text_view(STATUS_NOT_FOUND, "Blog not found"@),
            (Err(_), Err(e)) => e@ == text_view(STATUS_INTERNAL_ERROR, "Failed to query blog"@),
            _ => false,
        },
{
    match found {
        Ok(Some(b)) => Ok(show_blog(&b)),
        Ok(None) => Err(text(STATUS_NOT_FOUND, "Blog not found")),
        Err(_) => Err(text(STATUS_INTERNAL_ERROR, "Failed to query blog")),
    }
}

/// Before a change to blog `id` (a deletion or an update): the row must be
/// there. `Ok` carries the number of the row to change.
pub fn blog_to_change(found: Result<Option<BlogRecord>, StoreError>) -> (r: Result<i32, Reply>)
    ensures
        match (found, r) {
            (Ok(Some(b)), Ok(id)) => id == b.id,
            (Ok(None), Err(e)) => e@ == text_view(STATUS_NOT_FOUND, "Blog not found"@),
            (Err(_), Err(e)) => e@ == text_view(STATUS_INTERNAL_ERROR, "Failed to query blog"@),
            _ => false,
        },
{
    match found {
        Ok(Some(b)) => Ok(b.id),
        Ok(None) => Err(text(STATUS_NOT_FOUND, "Blog not found")),
        Err(_) => Err(text(STATUS_INTERNAL_ERROR, "Failed to query blog")),
    }
}

/// After a blog row was deleted.
pub fn blog_deleted(done: Result<(), StoreError>) -> (r: Reply)
    ensures
        r@ == match done {
            Ok(_) => text_view(STATUS_ACCEPTED, "Deleted"@),
            Err(_) => text_view(STATUS_INTERNAL_ERROR, "Failed to delete blog"@),
        },
{
    match done {
        Ok(_) => text(STATUS_ACCEPTED, "Deleted"),
        Err(_) => text(STATUS_INTERNAL_ERROR, "Failed to delete blog"),
    }
}

/// After a blog row's title and content were replaced.
pub fn blog_updated(done: Result<(), StoreError>) -> (r: Reply)
    ensures
        r@ == match done {
            Ok(_) => text_view(STATUS_ACCEPTED, "Updated"@),
            Err(_) => text_view(STATUS_INTERNAL_ERROR, "Failed to update blog"@),
        },
{
    match done {
        Ok(_) => text(STATUS_ACCEPTED, "Updated"),
        Err(_) => text(STATUS_INTERNAL_ERROR, "Failed to update blog"),
    }
}

// ---- Creating a post ----

#[derive(Debug, PartialEq, Eq)]
pub enum BlogCreateStep {
    Respond(Reply),
    /// Insert this post; hand the result to `blog_inserted`.
    Insert(CreateBlogModel),
}

pub ghost enum BlogCreateStepView {
    Respond(ReplyView),
    Insert(BlogEntry),
}

impl View for BlogCreateStep {
    type V = BlogCreateStepView;

    open spec fn view(&self) -> BlogCreateStepView {
        match self {
            BlogCreateStep::Respond(r) => BlogCreateStepView::Respond(r@),
            BlogCreateStep::Insert(b) => BlogCreateStepView::Insert(b@),
        }
    }
}

pub open spec fn no_rights_view() -> ReplyView {
    text_view(STATUS_FORBIDDEN, "You have no rights"@)
}

/// Whether a lookup found a row, or failed.
pub open spec fn found_shape<T>(r: Result<Option<T>, StoreError>) -> Result<bool, StoreError> {
    match r {
        Ok(Some(_)) => Ok(true),
        Ok(None) => Ok(false),
        Err(e) => Err(e),
    }
}

pub open spec fn author_checked_spec(author: Result<bool, StoreError>, post: BlogEntry) -> BlogCreateStepView {
    match author {
        Err(_) => BlogCreateStepView::Respond(text_view(STATUS_INTERNAL_ERROR, "Failed to query user"@)),
        Ok(false) => BlogCreateStepView::Respond(no_rights_view()),
        Ok(true) => BlogCreateStepView::Insert(post),
    }
}

pub open spec fn blog_inserted_spec(done: Result<(), StoreError>) -> ReplyView {
    match done {
        Ok(_) => text_view(STATUS_CREATED, "Blog created"@),
        Err(_) => text_view(STATUS_INTERNAL_ERROR, "Failed to insert blog"@),
    }
}

/// Given the lookup of the post's author by `post.user_id`: a post whose
/// author does not exist is refused 403; otherwise it is to be inserted.
pub fn author_checked(author: Result<Option<UserRecord>, StoreError>, post: CreateBlogModel) -> (r:
    BlogCreateStep)
    ensures
        r@ == author_checked_spec(found_shape(author), post@),
{
    match author {
        Err(_) => BlogCreateStep::Respond(text(STATUS_INTERNAL_ERROR, "Failed to query user")),
        Ok(None) => BlogCreateStep::Respond(text(STATUS_FORBIDDEN, "You have no rights")),
        Ok(Some(_)) => BlogCreateStep::Insert(post),
    }
}

/// After the post was inserted.
pub fn blog_inserted(done: Result<(), StoreError>) -> (r: Reply)
    ensures
        r@ == blog_inserted_spec(done),
{
    match done {
        Ok(_) => text(STATUS_CREATED, "Blog created"),
        Err(_) => text(STATUS_INTERNAL_ERROR, "Failed to insert blog"),
    }
}

/// A whole creation of `post` against the stores `s`: the author is looked
/// up by `post.user_id`, then the post inserted.
pub open spec fn create_blog_run(s: Stores, post: BlogEntry) -> (ReplyView, Stores) {
    match author_checked_spec(Ok(find_user(s, post.user_id) is Some), post) {
        BlogCreateStepView::Respond(r) => (r, s),
        BlogCreateStepView::Insert(b) => {
            let (done, s2) = insert_blog(s, b);
            (blog_inserted_spec(done), s2)
        },
    }
}

/// A post whose `user_id` names no user is refused with 403 and nothing is
/// written; a post by an existing user is written, once, as given.
pub proof fn lemma_post_needs_author(s: Stores, post: BlogEntry)
    ensures
        !s.users.contains_key(post.user_id) ==> create_blog_run(s, post) == (no_rights_view(), s),
        s.users.contains_key(post.user_id) ==> create_blog_run(s, post) == (
            text_view(STATUS_CREATED, "Blog created"@),
            Stores { blogs: s.blogs.push(post), ..s },
        ),
{
}

} // verus!
