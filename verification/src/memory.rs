//! A fixed-size byte store backing the internal work RAM and high RAM.

use vstd::prelude::*;

verus! {

/// A flat byte memory of a fixed size, indexed by a bus-relative offset.
pub struct Memory {
    mem: Vec<u8>,
}

impl Memory {
    /// The bytes currently held, as a sequence indexed by offset.
    pub closed spec fn view(&self) -> Seq<u8> {
        self.mem@
    }

    /// A fresh memory of `size` bytes, all zero.
    pub fn new(size: u16) -> (r: Memory)
        ensures
            r@ =~= Seq::new(size as nat, |i: int| 0u8),
    {
        let mut mem: Vec<u8> = Vec::new();
        let mut i: u16 = 0;
        while i < size
            invariant
                i <= size,
                mem@ =~= Seq::new(i as nat, |j: int| 0u8),
            decreases size - i,
        {
            mem.push(0);
            i = i + 1;
        }
        Memory { mem }
    }

    /// The byte at `addr`.
    pub fn read_byte(&self, addr: u16) -> (r: u8)
        requires
            addr < self@.len(),
        ensures
            r == self@[addr as int],
    {
        self.mem[addr as usize]
    }

    /// Replaces the byte at `addr` with `val`; no other byte changes.
    pub fn write_byte(&mut self, addr: u16, val: u8)
        requires
            addr < old(self)@.len(),
        ensures
            final(self)@ == old(self)@.update(addr as int, val),
    {
        self.mem.set(addr as usize, val);
    }
}

} // verus!
