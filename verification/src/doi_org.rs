//! The client side of content negotiation at doi.org.

pub mod client;
pub mod config;
