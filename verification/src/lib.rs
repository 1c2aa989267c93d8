//! Verified core of a stream latency and throughput measurement tool.
//!
//! A producer emits timestamped events through a bounded in-process queue into
//! a streaming transport; a consumer receives the stream, reconstructs each
//! event's send time, and reports per-event latency and a once-per-second
//! throughput count.  A feed variant builds a subscription filter request and
//! optionally attaches a bearer token.  The transport itself, connection
//! establishment and all I/O live outside this library; everything here is
//! plain logic on plain values, verified by Verus.

pub mod codec;
pub mod consumer;
pub mod event;
pub mod filter;
pub mod producer;
pub mod queue;
