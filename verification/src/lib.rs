//! ZeroPi: the decisions, layouts and configuration documents of a portable
//! launcher for the Pi coding agent and a llama.cpp server.

pub mod text;
pub mod config;
pub mod release;
pub mod layout;
pub mod pi_config;
pub mod launch;
pub mod setup;
pub mod startup;
pub mod archive;
