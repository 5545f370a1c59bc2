//! Session and authentication core of a small blog service: session
//! identifiers, the request guard, the OAuth callback flow, logout, and the
//! decisions behind the user and blog handlers.

pub mod ident;
pub mod records;
pub mod reply;
pub mod guard;
pub mod store;
pub mod clock;
pub mod userinfo;
pub mod query;
pub mod oauth;
pub mod account;
pub mod models;
pub mod blog;
pub mod users;
pub mod upload;
