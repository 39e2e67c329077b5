//! Rules on crates.

pub mod delete;
