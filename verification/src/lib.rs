//! Verified core of a small blogging API: accounts, password checks,
//! bearer tokens, posts and the error values that the HTTP layer turns
//! into responses.

pub mod status;
pub mod error;
pub mod text;
pub mod clock;
pub mod models;
pub mod digest;
pub mod jwt;
pub mod auth;
pub mod posts;
pub mod logging;
