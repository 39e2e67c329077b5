//! Rules on user accounts.

pub mod lock;
pub mod admin;
