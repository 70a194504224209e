//! Setting up the dependencies of the server: which files are needed, where
//! they come from and what is done with them. Files, programs and the network
//! are used by the caller.

pub mod deps;
pub mod download;
pub mod extract;
pub mod global_config;
pub mod install;
pub mod install_laws;
pub mod release;
