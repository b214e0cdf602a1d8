//! The client: what it asks of the daemon, and how it starts it.
pub mod args;
pub mod error;
pub mod launch;
pub mod request;
