//! A memory scanner engine: per-region snapshots and hit sets that are
//! narrowed, pass after pass, by typed predicates over the values found in a
//! process's writable memory.
use vstd::prelude::*;

pub mod bytes;
pub mod cheat;
pub mod engine;
pub mod filter;
pub mod lemmas;
pub mod memory;
pub mod parse;
pub mod primitive;
pub mod region;
pub mod scanner;
pub mod seqs;
pub mod text;
pub mod types;

verus! {

/// A contiguous range `[base_address, base_address + size)` of a process's
/// address space.
#[derive(Debug, Clone, Copy, PartialEq, Eq, Hash, Structural)]
pub struct MemoryRegion {
    pub base_address: usize,
    pub size: usize,
}

impl MemoryRegion {
    /// The region ends inside the address space.
    pub open spec fn valid(self) -> bool {
        self.base_address + self.size <= usize::MAX
    }

    /// Whether the region ends inside the address space.
    pub fn is_valid(&self) -> (r: bool)
        ensures
            r == self.valid(),
    {
        self.base_address <= usize::MAX - self.size
    }
}

/// A read of a process's memory that failed or came back short.
#[derive(Debug, Clone, Copy, PartialEq, Eq, Structural)]
pub struct ReadError {
    pub address: usize,
    pub len: usize,
}

/// Read access to the memory of an external process.
pub trait Process {
    /// Reads exactly `bytes_to_read` bytes starting at `address`.
    fn read_memory_bytes(&self, address: usize, bytes_to_read: usize) -> Result<Vec<u8>, ReadError>;

    /// The regions of the process that are currently readable and writable.
    fn get_writable_regions(&self) -> Vec<MemoryRegion>;
}

} // verus!
