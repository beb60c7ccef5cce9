//! A client library for a Subsonic-style media server: authenticated request
//! URLs, query strings, and the decisions taken on each response.

pub mod api;
pub mod error;
pub mod text;
pub mod query;
pub mod auth;
pub mod client;
pub mod response;
pub mod library;
pub mod util;
