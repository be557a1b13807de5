//! Keeps a dynamic-DNS record pointing at this host: the decisions of one
//! update cycle, with the network and the file system left to the caller.

pub mod change_log;
pub mod config;
pub mod discovery;
pub mod error;
pub mod laws;
pub mod orchestrator;
pub mod provider;
pub mod reply;
pub mod text;
pub mod view;
