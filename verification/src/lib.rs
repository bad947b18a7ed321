//! The rules of a small service that keeps user records: the records and
//! their JSON text, the error envelope, and the response that each endpoint
//! gives for each outcome of its statement against the store.

pub mod error;
pub mod handlers;
pub mod json;
pub mod models;
pub mod response;
