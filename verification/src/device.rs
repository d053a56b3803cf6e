//! The host-side device the emulation core drives.

use vstd::prelude::*;

verus! {

/// The host keys the gamepad is wired to.
#[derive(Clone, Copy, Debug)]
pub enum Key {
    Up,
    Down,
    Left,
    Right,

    Backspace,
    Enter,

    Z,
    X,
}

/// What the core needs from its host: a frame sink, key state, and a
/// running flag.  Implementations live outside the core — a window, a test
/// harness — so nothing is promised of what they return, and the core's
/// contracts hold for every answer.
pub trait Device {
    /// Lets the host refresh itself between steps.
    fn update(&mut self);

    /// Hands the host one rendered frame of pixels.
    fn set_frame_buffer(&mut self, buffer: &[u32]);

    /// Whether the given key is held down right now.
    fn key_down(&self, key: Key) -> bool;

    /// Whether the host wants emulation to continue.
    fn running(&self) -> bool;
}

} // verus!
