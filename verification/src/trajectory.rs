//! The trajectory of a session: its recorded steps, as a ledger and a timeline.

pub mod duration;
pub mod duration_laws;
pub mod inspector;
pub mod json_tree;
pub mod json_tree_laws;
pub mod json_tree_state;
pub mod ledger;
pub mod ledger_keys;
pub mod ledger_laws;
pub mod order;
pub mod pane_laws;
pub mod record;
pub mod row_laws;
pub mod search;
pub mod session_laws;
pub mod state;
pub mod state_laws;
pub mod timeline;
pub mod timeline_laws;
pub mod view;
