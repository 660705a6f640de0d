//! Per-connection session engine for a POP3 server.

pub mod batch;
pub mod call;
pub mod directory;
pub mod error;
pub mod flow;
pub mod listener;
pub mod pool;
pub mod protocol;
pub mod session;
pub mod state;
pub mod text;
pub mod validate;
