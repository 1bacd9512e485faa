//! Decision logic of a small health-check service: configuration loading,
//! routing, response construction, the shutdown watcher and the process
//! lifecycle, each with a machine-checked contract.
//!
//! Nothing here performs I/O. The process around this library reads the
//! environment, opens the pool, binds the listener and serves; what to do
//! next, with which values, and how to answer, is decided here.

pub mod config;
pub mod decimal;
pub mod http;
pub mod lifecycle;
pub mod pool;
pub mod shutdown;
pub mod text;
