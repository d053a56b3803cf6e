//! The boot-ROM overlay, active over the low address window at reset.

use vstd::prelude::*;
use vstd::slice::slice_to_vec;

verus! {

/// The boot-ROM image.
pub struct Bootrom {
    data: Vec<u8>,
}

impl Bootrom {
    /// The image's bytes.
    pub closed spec fn view(&self) -> Seq<u8> {
        self.data@
    }

    /// A boot ROM holding exactly `bytes`.
    pub fn from_bytes(bytes: &[u8]) -> (r: Bootrom)
        ensures
            r@ == bytes@,
    {
        Bootrom { data: slice_to_vec(bytes) }
    }

    /// The image byte at `addr`; reads past the image's end fall back to
    /// the open-bus value.
    pub fn read_byte(&self, addr: u16) -> (r: u8)
        ensures
            r == spec_bootrom_read(self@, addr),
    {
        if (addr as usize) < self.data.len() {
            self.data[addr as usize]
        } else {
            0xff
        }
    }
}

/// What a boot-ROM read returns.
pub open spec fn spec_bootrom_read(data: Seq<u8>, addr: u16) -> u8 {
    if addr < data.len() {
        data[addr as int]
    } else {
        0xff
    }
}

} // verus!
