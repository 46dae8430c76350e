//! A client for the DSF daemon: it tracks the requests in flight on the
//! daemon socket, routes each response to the request that waits for it, and
//! turns the daemon's answers into the results of the client operations.
pub mod types;
pub mod error;
pub mod reply;
pub mod actor;
pub mod client;
pub mod laws;
pub mod report;

pub use client::{Client, ServiceHandle};
pub use error::Error;
pub use reply::Reply;
