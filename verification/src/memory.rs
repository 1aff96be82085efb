//! A fixed-size, zero-initialized, byte-addressable memory with a 16-bit
//! address space.

use vstd::prelude::*;

verus! {

/// Number of addressable bytes: the whole 16-bit address space.
pub const MEMORY_SIZE: usize = 65536;

/// The memory owned by one machine. Viewed as the sequence of its bytes;
/// every 16-bit address is a valid index.
pub struct Memory {
    bytes: Vec<u8>,
}

impl View for Memory {
    type V = Seq<u8>;

    closed spec fn view(&self) -> Seq<u8> {
        self.bytes@
    }
}

impl Memory {
    /// Well-formedness: the full address space is backed, so reads and
    /// writes are total over `u16` addresses. Constructors establish it and
    /// every method preserves it.
    pub open spec fn wf(self) -> bool {
        self@.len() == MEMORY_SIZE
    }

    /// A zero-initialized memory.
    pub fn new() -> (r: Memory)
        ensures
            r.wf(),
            forall|i: int| 0 <= i < MEMORY_SIZE ==> r@[i] == 0u8,
    {
        let mut bytes: Vec<u8> = Vec::new();
        let mut i: usize = 0;
        while i < MEMORY_SIZE
            invariant
                i <= MEMORY_SIZE,
                bytes@.len() == i,
                forall|j: int| 0 <= j < i ==> bytes@[j] == 0u8,
            decreases MEMORY_SIZE - i,
        {
            bytes.push(0u8);
            i = i + 1;
        }
        Memory { bytes }
    }

    /// The byte stored at `address`.
    pub fn read(&self, address: u16) -> (r: u8)
        requires
            self.wf(),
        ensures
            r == self@[address as int],
    {
        self.bytes[address as usize]
    }

    /// Store `value` at `address`, leaving every other byte unchanged.
    pub fn write(&mut self, address: u16, value: u8)
        requires
            old(self).wf(),
        ensures
            final(self).wf(),
            final(self)@ == old(self)@.update(address as int, value),
    {
        self.bytes[address as usize] = value;
    }
}

} // verus!
