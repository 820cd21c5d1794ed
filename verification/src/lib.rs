//! Security subjects: what a server may ask of an authenticated principal.
//!
//! The [`auth::user::UserDetail`] trait is the query surface a server holds a
//! principal behind; [`auth::user::DefaultUser`] is a minimal principal that
//! carries nothing but its username.

pub mod auth;
