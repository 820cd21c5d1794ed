//! Authentication-side abstractions.

pub mod user;
