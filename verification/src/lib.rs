//! Configuration, dependency planning and device-pool bookkeeping of the
//! sandbox server, as verified functions from plain values to plain values.

pub mod config;
pub mod conversion;
pub mod daemon;
pub mod failure;
pub mod fs_path;
pub mod manifest;
pub mod message_laws;
pub mod oci;
pub mod path_laws;
pub mod setup;
pub mod text;
pub mod text_laws;
