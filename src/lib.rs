//! Typed client for the SuperTokens core API: endpoint resolution, request
//! headers and the classification of the core's replies.
pub mod config;
pub mod constants;
pub mod headers;
pub mod recipe;
pub mod response;
pub mod roles;

pub use config::{Recipe, SuperTokens};
