//! The client side of the Crossref REST API: its configuration, what it
//! sends, the policies under which it repeats a request, and the records
//! that it gets.

pub mod client;
pub mod config;
pub mod models;
pub mod rate_limit;
pub mod retry;
