//! Request handlers: the flows behind the endpoints, over the in-memory
//! store. Each handler returns the HTTP status code it answers with and the
//! response body.

pub mod auth;
pub mod events;
