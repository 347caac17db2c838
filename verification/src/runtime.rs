//! Tasks at work: what goes to the agents, and what comes back from them.
pub mod agent_laws;
pub mod checkpoints;
pub mod option_laws;
pub mod options;
pub mod prompt;
pub mod pump;
pub mod queue;
pub mod remote;
pub mod rewind;
pub mod rewind_laws;
pub mod sending_laws;
pub mod state;
pub mod submit;
pub mod sync;
pub mod sync_laws;
pub mod task_laws;
pub mod turn_laws;
