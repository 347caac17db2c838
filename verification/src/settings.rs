//! The settings: their pages, the daemon, the providers and the accounts.
pub mod auth;
pub mod auth_laws;
pub mod daemon;
pub mod daemon_laws;
pub mod form_laws;
pub mod page_laws;
pub mod pages;
pub mod provider_form;
pub mod provider_laws;
