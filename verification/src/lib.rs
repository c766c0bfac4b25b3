//! A streaming directory archiver: walks a source tree, writes each regular
//! file as one entry of a compressed container, choosing per file between a
//! whole-buffer write and a bounded-memory chunked write.
//!
//! This crate holds the verified core: strategy selection, the sequential
//! entry protocol of an archive session, chunking, metrics accounting and
//! the worklist directory enumerator. The surrounding binary performs the
//! actual filesystem and container I/O and feeds the results in as plain
//! values.

pub mod archiver;
pub mod enumerate;
pub mod laws;
pub mod metrics;
pub mod paths;
pub mod session;
pub mod strategy;
