//! Explicit models of the two regions of process memory the capture reads.
//!
//! Verified code cannot dereference raw addresses, so the stack words that
//! the frame walk follows and the page-head words that the load-address scan
//! inspects are modeled as snapshots: a base byte address plus the values
//! stored at fixed strides above it. An embedding program fills these from
//! the live process, or mirrors the verified loops against live memory.

use vstd::prelude::*;

verus! {

/// The number of bytes in one machine word of the modeled architecture.
pub const WORD_SIZE: usize = 8;

/// The number of bytes in one page, the stride of the load-address scan.
pub const PAGE_SIZE: usize = 0x1000;

/// A snapshot of one contiguous run of stack words.
///
/// `words[i]` is the machine word stored at byte address
/// `base + i * WORD_SIZE`.
pub struct StackMemory {
    /// Byte address of the first captured word.
    pub base: usize,
    /// The captured words, in address order.
    pub words: Vec<usize>,
}

impl StackMemory {
    /// Whether a whole word lies in the snapshot at byte address `addr`.
    pub open spec fn valid(self, addr: usize) -> bool {
        &&& self.base <= addr
        &&& (addr - self.base) % (WORD_SIZE as int) == 0
        &&& (addr - self.base) / (WORD_SIZE as int) < self.words@.len()
    }

    /// The word stored at byte address `addr`.
    pub open spec fn word_at(self, addr: usize) -> usize {
        self.words@[(addr - self.base) / (WORD_SIZE as int)]
    }

    /// Reads the word at byte address `addr`.
    pub fn read(&self, addr: usize) -> (w: usize)
        requires
            self.valid(addr),
        ensures
            w == self.word_at(addr),
    {
        let idx: usize = (addr - self.base) / WORD_SIZE;
        self.words[idx]
    }
}

/// A snapshot of the first word of each page of a mapped region.
///
/// `page_heads[i]` is the 32-bit word stored at byte address
/// `base + i * PAGE_SIZE`; `base` itself is page-aligned.
pub struct ImageMemory {
    /// Page-aligned byte address of the first captured page.
    pub base: usize,
    /// The first word of each captured page, in address order.
    pub page_heads: Vec<u32>,
}

impl ImageMemory {
    /// The snapshot's base really is page-aligned.
    pub open spec fn wf(self) -> bool {
        (self.base as int) % (PAGE_SIZE as int) == 0
    }

    /// Whether the page starting at byte address `addr` is in the snapshot.
    pub open spec fn covers(self, addr: usize) -> bool {
        &&& self.base <= addr
        &&& (addr - self.base) % (PAGE_SIZE as int) == 0
        &&& (addr - self.base) / (PAGE_SIZE as int) < self.page_heads@.len()
    }

    /// The first word of the page starting at byte address `addr`.
    pub open spec fn head_at(self, addr: usize) -> u32 {
        self.page_heads@[(addr - self.base) / (PAGE_SIZE as int)]
    }

    /// Reads the first word of the page starting at byte address `addr`.
    pub fn read_head(&self, addr: usize) -> (w: u32)
        requires
            self.covers(addr),
        ensures
            w == self.head_at(addr),
    {
        let idx: usize = (addr - self.base) / PAGE_SIZE;
        self.page_heads[idx]
    }
}

} // verus!
