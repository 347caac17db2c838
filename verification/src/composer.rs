//! The composer: where the user picks a model, writes a prompt and sends it.
pub mod attachment_laws;
pub mod attachments;
pub mod branch_laws;
pub mod branches;
pub mod control_laws;
pub mod controls;
pub mod model_control;
pub mod model_control_laws;
pub mod picker;
pub mod picker_laws;
pub mod picker_rows;
pub mod questions;
pub mod workspace;
