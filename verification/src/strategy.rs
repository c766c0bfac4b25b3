//! The size-adaptive write strategy: one threshold constant decides, per
//! file, between reading the whole file into memory and streaming it in
//! bounded chunks. The same constant is the chunk size, so memory use is
//! bounded by it on either path.

use vstd::prelude::*;

verus! {

/// Byte-size cutoff between the two write strategies, and the chunk size of
/// the streaming path.
pub const THRESHOLD: usize = 100_000_000;

/// How one file's bytes are moved into its archive entry.
#[derive(Clone, Copy, Debug, PartialEq, Eq, Structural)]
pub enum WriteStrategy {
    /// Read the whole file into memory, write it as one entry in one call.
    WholeBuffer,
    /// Stream the file through a reusable buffer of at most `THRESHOLD` bytes.
    Chunked,
}

/// Picks the write strategy for a file of `file_size` bytes: whole-buffer
/// strictly below the threshold, chunked at or above it.
pub fn select_strategy(file_size: u64) -> (s: WriteStrategy)
    ensures
        s == WriteStrategy::WholeBuffer <==> file_size < THRESHOLD as u64,
        s == WriteStrategy::Chunked <==> file_size >= THRESHOLD as u64,
{
    if file_size < THRESHOLD as u64 {
        WriteStrategy::WholeBuffer
    } else {
        WriteStrategy::Chunked
    }
}

} // verus!
