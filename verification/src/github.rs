//! What the client says to the remote service and what it hears back.

pub mod auth;
pub mod client;
pub mod requests;
pub mod responses;
