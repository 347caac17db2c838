//! The browser client: its transcript, its connection to the daemon, and its tasks.

pub mod address_laws;
pub mod app;
pub mod app_laws;
pub mod client;
pub mod connection_laws;
pub mod daemon_url;
pub mod reduce;
pub mod reduce_laws;
