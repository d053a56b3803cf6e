//! The audio frame sequencer: an eight-step ring the channels' length
//! counters are clocked from on every other step.

use vstd::prelude::*;

verus! {

/// The sequencer position, 0 through 7.
#[derive(Clone, Copy)]
pub struct FrameSequencer {
    pub cycles: u8,
}

/// One sequencer step: the position advances around the ring.
pub open spec fn spec_fs_step(fs: FrameSequencer) -> FrameSequencer {
    FrameSequencer { cycles: ((fs.cycles + 1) % 8) as u8 }
}

/// Whether the current position clocks the length counters.
pub open spec fn spec_fs_length_step(fs: FrameSequencer) -> bool {
    fs.cycles % 2 == 0
}

impl FrameSequencer {
    pub fn step(&mut self)
        ensures
            *final(self) == spec_fs_step(*old(self)),
    {
        self.cycles = self.cycles.wrapping_add(1) % 8;
    }

    pub fn length_step(&self) -> (r: bool)
        ensures
            r == spec_fs_length_step(*self),
    {
        self.cycles % 2 == 0
    }
}

impl Default for FrameSequencer {
    fn default() -> (r: Self)
        ensures
            r == (FrameSequencer { cycles: 0u8 }),
    {
        FrameSequencer { cycles: 0 }
    }
}

} // verus!
