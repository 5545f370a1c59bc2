//! Uploads to object storage: which form fields are files, and under which
//! key and URL each is stored.

use vstd::prelude::*;

use crate::ident::{id_text, new_uuid, uuid_text_of};

verus! {

/// A file of an upload and whether storing it succeeded.
#[derive(Clone, Debug, PartialEq, Eq)]
pub struct UploadFile {
    pub key: String,
    pub successful: bool,
    pub url: String,
    pub file_name: String,
    pub content_type: String,
}

pub open spec fn object_url_of(bucket: Seq<char>, key: Seq<char>) -> Seq<char> {
    "https://"@ + bucket + ".s3.amazonaws.com/"@ + key
}

/// Where an object of `bucket` stored under `key` is found.
pub fn object_url(bucket: &str, key: &str) -> (r: String)
    ensures
        r@ == object_url_of(bucket@, key@),
{
    let mut u = "https://".to_string();
    u.append(bucket);
    u.append(".s3.amazonaws.com/");
    u.append(key);
    u
}

/// Only the form fields named `files` are uploaded.
pub fn is_file_field(name: Option<&str>) -> (r: bool)
    ensures
        r == (name matches Some(n) && n@ == "files"@),
{
    match name {
        Some(n) => n.to_string() == "files".to_string(),
        None => false,
    }
}

/// A file about to be stored: a fresh random key, its URL in `bucket`, not
/// yet stored.
pub fn plan_upload(bucket: &str, file_name: &str, content_type: &str) -> (r: UploadFile)
    ensures
        exists|k: u128| r.key@ == #[trigger] uuid_text_of(k),
        r.url@ == object_url_of(bucket@, r.key@),
        r.file_name@ == file_name@,
        r.content_type@ == content_type@,
        !r.successful,
{
    let k = new_uuid();
    let key = id_text(k);
    let url = object_url(bucket, key.as_str());
    UploadFile {
        key,
        successful: false,
        url,
        file_name: file_name.to_string(),
        content_type: content_type.to_string(),
    }
}

} // verus!
