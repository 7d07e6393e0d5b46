//! Binding of WeChat accounts by QR login.
//!
//! A login is started with a code that the server hands out ([`login`]), waited for
//! until it is confirmed ([`wait`]), and leaves an account ([`account`]) and bound
//! users ([`bound_users`]) behind, which [`status`] shows. The logins that are under
//! way are kept in [`sessions`]. Files, HTTP and background tasks are the caller's:
//! the library says what to ask and what follows from the answer.
//!
//! What the operations are for stands in [`operations`] and [`outcomes`]; what holds
//! of a login from its start to its end stands in [`laws`].

pub mod account;
pub mod bound_users;
pub mod config;
pub mod errors;
pub mod followup;
pub mod handler;
pub mod laws;
pub mod login;
pub mod operations;
pub mod outcomes;
pub mod outside;
pub mod sessions;
pub mod status;
pub mod text;
pub mod wait;
