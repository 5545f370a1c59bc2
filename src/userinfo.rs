//! Reading the user-info document that the OAuth provider returns.

use vstd::prelude::*;

verus! {

/// Whether a text is one JSON document.
pub uninterp spec fn json_parses(text: Seq<char>) -> bool;

/// The text of the string member `key` of the JSON object that `text` holds;
/// `None` where the text is no JSON document, the document no object, or the
/// member absent or no string.
pub uninterp spec fn json_text_member(text: Seq<char>, key: Seq<char>) -> Option<Seq<char>>;

/// The value of the boolean member `key` of the JSON object that `text`
/// holds; `None` where the text is no JSON document, the document no object,
/// or the member absent or no boolean.
pub uninterp spec fn json_flag_member(text: Seq<char>, key: Seq<char>) -> Option<bool>;

/// Relies on `serde_json::from_str` into a `serde_json::Value`: it succeeds
/// or fails on the text alone.
#[verifier::external_body]
fn parses_as_json(text: &str) -> (r: bool)
    ensures
        r == json_parses(text@),
{
    serde_json::from_str::<serde_json::Value>(text).is_ok()
}

/// Relies on `serde_json::from_str` into a `serde_json::Value`, then
/// `Value::get` and `Value::as_str`: the text of a string member, which
/// depends on the text and the key alone. A text that does not parse has no
/// members.
#[verifier::external_body]
fn text_member(text: &str, key: &str) -> (r: Option<String>)
    ensures
        r.deep_view() == json_text_member(text@, key@),
        !json_parses(text@) ==> r is None,
{
    serde_json::from_str::<serde_json::Value>(text)
        .ok()
        .and_then(|v| v.get(key).and_then(|m| m.as_str()).map(|s| s.to_string()))
}

/// Relies on `serde_json::from_str` into a `serde_json::Value`, then
/// `Value::get` and `Value::as_bool`: the value of a boolean member, which
/// depends on the text and the key alone. A text that does not parse has no
/// members.
#[verifier::external_body]
fn flag_member(text: &str, key: &str) -> (r: Option<bool>)
    ensures
        r == json_flag_member(text@, key@),
        !json_parses(text@) ==> r is None,
{
    serde_json::from_str::<serde_json::Value>(text).ok().and_then(|v| v.get(key).and_then(|m| m.as_bool()))
}

/// What the provider says of the user; a member that is absent, or of
/// another JSON type, is `None`.
#[derive(Clone, Debug, PartialEq, Eq)]
pub struct UserInfo {
    pub email: Option<String>,
    pub verified_email: Option<bool>,
    pub name: Option<String>,
}

pub ghost struct UserInfoView {
    pub email: Option<Seq<char>>,
    pub verified_email: Option<bool>,
    pub name: Option<Seq<char>>,
}

impl View for UserInfo {
    type V = UserInfoView;

    open spec fn view(&self) -> UserInfoView {
        UserInfoView {
            email: self.email.deep_view(),
            verified_email: self.verified_email,
            name: self.name.deep_view(),
        }
    }
}

/// What a user-info document says: its `email`, `verified_email` and
/// `name` members.
pub open spec fn userinfo_of(body: Seq<char>) -> UserInfoView {
    UserInfoView {
        email: json_text_member(body, "email"@),
        verified_email: json_flag_member(body, "verified_email"@),
        name: json_text_member(body, "name"@),
    }
}

/// Reads `email`, `verified_email` and `name` from a user-info document;
/// `None` where the text is not JSON.
pub fn read_userinfo(body: &str) -> (r: Option<UserInfo>)
    ensures
        !json_parses(body@) ==> r is None,
        json_parses(body@) ==> (r matches Some(i) && i@ == userinfo_of(body@)),
{
    if !parses_as_json(body) {
        return None;
    }
    let email = text_member(body, "email");
    let verified_email = flag_member(body, "verified_email");
    let name = text_member(body, "name");
    Some(UserInfo { email, verified_email, name })
}

} // verus!
