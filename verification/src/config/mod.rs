//! The configuration of the server: its values and defaults, how paths in it
//! are resolved, and which values are acceptable.

pub mod field_laws;
pub mod image;
pub mod laws;
pub mod manager;
pub mod network;
pub mod normalize;
pub mod paths;
pub mod resolve;
pub mod types;
pub mod validate;
