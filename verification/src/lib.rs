//! Request-handling rules of a package registry, verified with Verus: the JSON error
//! values the API answers with, the signature checks and the key cache used for
//! secret-scanning alerts, token revocation, crate deletion and account locking.

pub mod time;
pub mod text;
pub mod errors;
pub mod krate;
pub mod secret_scanning;
pub mod user;
