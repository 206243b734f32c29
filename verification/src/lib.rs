//! An in-process, bidirectional byte-stream mock: a pair of connected
//! endpoints that behave like the two sides of a network connection,
//! without touching any real transport.
//!
//! The core is [`channel::BoundedByteChannel`], a fixed-capacity circular
//! byte buffer with one producer and one consumer, whose operations report
//! "would block" instead of blocking and park a wake handle for the
//! suspended side.  [`halves`] splits one channel into an exclusively owned
//! read half and write half, and [`endpoint`] cross-wires two channels into
//! a duplex [`endpoint::Endpoint`] pair.

pub mod channel;
pub mod endpoint;
pub mod halves;
pub mod laws;
pub mod wake;
