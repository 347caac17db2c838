//! The logic of a desktop and browser client for coding agents.

pub mod collection_laws;
pub mod composer;
pub mod ids;
pub mod key_map;
pub mod label;
pub mod protocol;
pub mod providers;
pub mod runtime;
pub mod session;
pub mod settings;
pub mod sorting;
pub mod text;
pub mod text_laws;
pub mod text_set;
pub mod trajectory;
pub mod ui;
pub mod ui_laws;
pub mod usage_meter;
pub mod web;
