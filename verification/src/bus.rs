//! The processor's view of the system bus.
//!
//! The processor fetches, loads and stores through these two operations
//! alone.  `bus_read` gives the byte a read returns in the current state;
//! `bus_write` relates the state after a byte write to the state before it.
//! The full interconnect and the flat test bus both implement this
//! interface, and the processor's contract is stated over it.

use vstd::prelude::*;

verus! {

/// A byte-addressed bus with 64 KiB of address space.
pub trait Bus: Sized {
    /// Well-formedness of the bus state, preserved by every operation.
    spec fn wf(&self) -> bool;

    /// The byte a read at `addr` returns in the current state.
    spec fn bus_read(&self, addr: u16) -> u8;

    /// How the state after a byte write at `addr` relates to this one.
    spec fn bus_write(&self, addr: u16, val: u8, post: &Self) -> bool;

    /// Reads one byte.  Reading never changes the bus.
    fn read_byte(&self, addr: u16) -> (r: u8)
        requires
            self.wf(),
        ensures
            r == self.bus_read(addr);

    /// Writes one byte.
    fn write_byte(&mut self, addr: u16, val: u8)
        requires
            old(self).wf(),
        ensures
            old(self).bus_write(addr, val, final(self)),
            final(self).wf();
}

/// The relation two byte writes, performed in order, establish between a
/// starting and a finishing bus state.
pub open spec fn spec_write2<B: Bus>(b: B, a1: u16, v1: u8, a2: u16, v2: u8, post: B) -> bool {
    exists|mid: B| #[trigger] b.bus_write(a1, v1, &mid) && mid.bus_write(a2, v2, &post)
}

} // verus!
