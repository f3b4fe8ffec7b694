use vstd::prelude::*;

verus! {

/// Number of bytes in the 16-bit address space.
pub const MEMORY_SIZE: usize = 0x10000;

/// A flat 64 KB address space; reads and writes are total over 16-bit addresses.
pub struct Memory {
    data: Vec<u8>,
}

impl View for Memory {
    type V = Seq<u8>;

    closed spec fn view(&self) -> Seq<u8> {
        self.data@
    }
}

impl Memory {
    /// Every 16-bit address holds a byte.
    pub open spec fn wf(&self) -> bool {
        self@.len() == MEMORY_SIZE
    }

    /// Memory filled with zeros.
    pub fn new() -> (r: Memory)
        ensures
            r.wf(),
            r@ == Seq::new(MEMORY_SIZE as nat, |i: int| 0u8),
    {
        let mut data: Vec<u8> = Vec::with_capacity(MEMORY_SIZE);
        let mut i: usize = 0;
        while i < MEMORY_SIZE
            invariant
                i <= MEMORY_SIZE,
                data@ == Seq::new(i as nat, |j: int| 0u8),
            decreases MEMORY_SIZE - i,
        {
            data.push(0);
            i += 1;
        }
        Memory { data }
    }

    /// The byte at `addr`.
    pub fn read(&self, addr: u16) -> (r: u8)
        requires
            self.wf(),
        ensures
            r == self@[addr as int],
    {
        self.data[addr as usize]
    }

    /// Stores `value` at `addr`.
    pub fn write(&mut self, addr: u16, value: u8)
        requires
            old(self).wf(),
        ensures
            final(self).wf(),
            final(self)@ == old(self)@.update(addr as int, value),
    {
        self.data.set(addr as usize, value);
    }
}

} // verus!
