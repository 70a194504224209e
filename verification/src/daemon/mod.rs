//! The block-device daemon: which devices exist, who holds them, and what is
//! answered to each request. The block devices themselves are driven by the
//! caller, which reports back what happened.

pub mod error;
pub mod handlers;
pub mod lifecycle;
pub mod placeholders;
pub mod pool;
pub mod pool_laws;
pub mod protocol;
pub mod services;
pub mod tables;
pub mod task_laws;
pub mod tasks;
pub mod warm_pool;
