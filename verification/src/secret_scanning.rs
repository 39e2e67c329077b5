//! Handling of alerts from services that find exposed API tokens and report them:
//! checking the signature of a report against the reporter's published keys, and
//! deciding what to do with each reported token.

pub mod key;
pub mod crypto;
pub mod cache;
pub mod alert;
pub mod request;
pub mod deps_dev;
pub mod github;
