//! Verified core of the authentication service: query-string handling,
//! the pending-login store, the token cache, session-token claims and the
//! decisions taken by the login, callback and validation endpoints.

pub mod controllers;
pub mod data_models;
pub mod handlers;
pub mod http;
pub mod models;
pub mod percent;
pub mod query;
pub mod shared;
