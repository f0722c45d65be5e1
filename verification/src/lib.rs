//! Protocol engine for a line-delimited JSON-RPC dialect spoken with a
//! long-lived child process: request/response correlation, inbound message
//! classification, and the per-thread streaming-assembly state machine that
//! turns incremental text deltas into discrete message and turn events.

pub mod engine;
pub mod events;
pub mod history;
pub mod launch;
pub mod outbound;
pub mod util;
pub mod table;
pub mod text;
pub mod wire;
