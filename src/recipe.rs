//! Operations grouped by the recipe they belong to.
pub mod email_password;
pub mod jwt;
