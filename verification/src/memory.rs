//! Addressable memory: one contiguous, zero-initialized byte array spanning
//! the full 16-bit address space, with byte and little-endian word access.

use vstd::prelude::*;

verus! {

/// Number of addressable bytes: the full 16-bit address space.
pub const MAX_MEM: usize = 0x10000;

/// The memory array. The byte vector always spans exactly [`MAX_MEM`] cells.
pub struct Memory {
    /// The raw cells, indexable directly for test setup and inspection.
    pub data: Vec<u8>,
}

impl View for Memory {
    type V = Seq<u8>;

    open spec fn view(&self) -> Seq<u8> {
        self.data@
    }
}

impl Memory {
    /// The memory is well formed when it spans the whole address space.
    pub open spec fn wf(self) -> bool {
        self@.len() == MAX_MEM
    }

    /// Fresh, zero-initialized memory.
    pub fn new() -> (r: Memory)
        ensures
            r.wf(),
            r@ == Seq::new(MAX_MEM as nat, |j: int| 0u8),
    {
        let mut data: Vec<u8> = Vec::new();
        while data.len() < MAX_MEM
            invariant
                data@.len() <= MAX_MEM,
                forall|j: int| 0 <= j < data@.len() ==> data@[j] == 0u8,
            decreases MAX_MEM - data@.len(),
        {
            data.push(0);
        }
        proof {
            assert(data@ =~= Seq::new(MAX_MEM as nat, |j: int| 0u8));
        }
        Memory { data }
    }

    /// Write a word (2 bytes) to an address in memory, low byte at the lower
    /// address. The address and its successor must lie in the 16-bit range.
    pub fn write_word(&mut self, address: usize, data: u16)
        requires
            old(self).wf(),
            address + 1 < MAX_MEM,
        ensures
            final(self).wf(),
            final(self)@ == old(self)@.update(address as int, (data % 256) as u8).update(
                address + 1,
                (data / 256) as u8,
            ),
    {
        self.write_byte(address, (data % 256) as u8);
        self.write_byte(address + 1, (data / 256) as u8);
    }

    /// Write a single byte to an address in memory.
    pub fn write_byte(&mut self, address: usize, data: u8)
        requires
            old(self).wf(),
            address < MAX_MEM,
        ensures
            final(self).wf(),
            final(self)@ == old(self)@.update(address as int, data),
    {
        self.data[address] = data;
    }

    /// Get a byte from an address in memory.
    pub fn read_byte(&self, address: usize) -> (r: u8)
        requires
            self.wf(),
            address < MAX_MEM,
        ensures
            r == self@[address as int],
    {
        self.data[address]
    }

    /// Get a word (2 bytes) from an address in memory, combined
    /// little-endian: the lower address holds the low byte.
    pub fn read_word(&self, address: usize) -> (r: u16)
        requires
            self.wf(),
            address + 1 < MAX_MEM,
        ensures
            r == self@[address as int] + 256 * self@[address as int + 1],
    {
        let lo: u8 = self.read_byte(address);
        let hi: u8 = self.read_byte(address + 1);
        lo as u16 + 256 * (hi as u16)
    }
}

impl Default for Memory {
    /// Fresh, zero-initialized memory.
    fn default() -> (r: Memory)
        ensures
            r.wf(),
            r@ == Seq::new(MAX_MEM as nat, |j: int| 0u8),
    {
        Memory::new()
    }
}

} // verus!
