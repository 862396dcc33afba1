//! Execution adapter that runs WebAssembly modules and components as
//! container processes: classification of the payload, choice of the
//! invocation strategy, the HTTP proxy's per-request protocol and the
//! two-stage shutdown.

pub mod binary;
pub mod context;
pub mod engine;
pub mod env;
pub mod exit;
pub mod proxy;
pub mod server;
pub mod shutdown;
pub mod target;
pub mod text;
