//! The decisions behind three parts of a daemon that serves coding agents:
//! running a client's command, indexing amp's threads and probing an agent.
//!
//! What is done with processes, files and connections stands around this
//! library. It hands in what happened as plain values and carries out what the
//! library decides.

pub mod amp_index;
pub mod amp_scan;
pub mod capture;
pub mod command_exec;
pub mod exec_session;
pub mod json;
pub mod os_path;
pub mod probe_args;
pub mod probe_error;
pub mod probe_session;
pub mod probe_wire;
pub mod registry;
pub mod supervisor;
pub mod text;
pub mod threads_dir;
pub mod token;
