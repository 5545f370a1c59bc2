use blog_proj::blog::{
    author_checked, blog_deleted, blog_found, blog_inserted, blog_to_change, blog_updated,
    list_blogs, BlogCreateStep,
};
use blog_proj::models::CreateBlogModel;
use blog_proj::records::{BlogRecord, StoreError, UserRecord};
use blog_proj::upload::{is_file_field, object_url, plan_upload};
use blog_proj::ident::parse_id;
use blog_proj::users::{list_users, new_user, user_found, user_registered, user_to_change, user_updated};
use blog_proj::models::CreateUserModel;

fn post(user_id: u128) -> CreateBlogModel {
    CreateBlogModel {
        title: "T".to_string(),
        content: "C".to_string(),
        user_id,
        images: Some(vec!["a.png".to_string()]),
    }
}

fn blog(id: i32) -> BlogRecord {
    BlogRecord {
        id,
        title: format!("title {id}"),
        content: "body".to_string(),
        images: None,
        created_at: 100,
        user_id: 42,
    }
}

fn ann() -> UserRecord {
    UserRecord { uuid: 42, name: "Ann".to_string(), email: "a@b.com".to_string(), password: None }
}

#[test]
fn post_without_author_is_forbidden() {
    match author_checked(Ok(None), post(7)) {
        BlogCreateStep::Respond(r) => {
            assert_eq!(r.status, 403);
            assert_eq!(r.body, "You have no rights");
        }
        other => panic!("expected a refusal, got {:?}", other),
    }
    match author_checked(Err(StoreError::Failed), post(7)) {
        BlogCreateStep::Respond(r) => assert_eq!(r.status, 500),
        other => panic!("expected a reply, got {:?}", other),
    }
}

#[test]
fn post_with_author_is_inserted() {
    assert_eq!(author_checked(Ok(Some(ann())), post(42)), BlogCreateStep::Insert(post(42)));
    assert_eq!(blog_inserted(Ok(())).status, 201);
    assert_eq!(blog_inserted(Err(StoreError::Failed)).body, "Failed to insert blog");
}

#[test]
fn blog_listing_keeps_order() {
    let (status, list) = list_blogs(Ok(vec![blog(1), blog(2)]));
    assert_eq!(status, 200);
    assert_eq!(list.blogs.len(), 2);
    assert_eq!(list.blogs[0].title, "title 1");
    assert_eq!(list.blogs[1].title, "title 2");
    assert_eq!(list.blogs[1].created_at, 100);
    let (status, list) = list_blogs(Err(StoreError::Failed));
    assert_eq!(status, 500);
    assert!(list.blogs.is_empty());
}

#[test]
fn single_blog_and_changes() {
    assert_eq!(blog_found(Ok(Some(blog(3)))).unwrap().title, "title 3");
    assert_eq!(blog_found(Ok(None)).unwrap_err().status, 404);
    assert_eq!(blog_to_change(Ok(Some(blog(3)))), Ok(3));
    assert_eq!(blog_to_change(Err(StoreError::Failed)).unwrap_err().status, 500);
    assert_eq!(blog_deleted(Ok(())).body, "Deleted");
    assert_eq!(blog_deleted(Ok(())).status, 202);
    assert_eq!(blog_updated(Ok(())).body, "Updated");
}

#[test]
fn user_handlers() {
    let (status, list) = list_users(Ok(vec![ann()]));
    assert_eq!(status, 200);
    assert_eq!(list.users[0].email, "a@b.com");
    let u = user_found(Ok(Some(ann()))).unwrap();
    assert_eq!((u.name.as_str(), u.id), ("Ann", 42));
    assert_eq!(user_found(Ok(None)).unwrap_err().status, 404);
    assert_eq!(user_to_change(Ok(Some(ann()))), Ok(42));
    assert_eq!(user_updated(Ok(())).status, 202);
    assert_eq!(user_registered(Ok(())).status, 201);
    assert_eq!(user_registered(Err(StoreError::Failed)).status, 500);
    let a = new_user(CreateUserModel { name: "Bo".to_string(), email: "b@c.d".to_string() });
    let b = new_user(CreateUserModel { name: "Bo".to_string(), email: "b@c.d".to_string() });
    assert_eq!(a.name, "Bo");
    assert_ne!(a.uuid, b.uuid);
}

#[test]
fn upload_keys_and_urls() {
    assert_eq!(object_url("bkt", "k1"), "https://bkt.s3.amazonaws.com/k1");
    assert!(is_file_field(Some("files")));
    assert!(!is_file_field(Some("file")));
    assert!(!is_file_field(None));
    let f = plan_upload("bkt", "a.png", "image/png");
    assert!(parse_id(&f.key).is_some());
    assert_eq!(f.url, format!("https://bkt.s3.amazonaws.com/{}", f.key));
    assert_eq!(f.file_name, "a.png");
    assert!(!f.successful);
}
