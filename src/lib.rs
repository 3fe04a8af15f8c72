//! Connection manager for a publish/subscribe telemetry client.
//!
//! The library holds the decisions of the client without its I/O: the
//! batching of inbound messages, the cache of registered topic handles, the
//! slot that holds the single live session, and the rules that tie them to
//! the lifecycle of a connection.
pub mod batcher;
pub mod lifecycle;
pub mod session;
pub mod topic_cache;
