//! The input peripheral: eight keys sampled from the host device, a
//! rising edge on any of them raising the input interrupt, and the
//! matrix-select register the program reads them back through.

use vstd::prelude::*;
use crate::device::{Device, Key};
use crate::interrupt::{Irq, Interrupt};

verus! {

/// One key: which host key it is wired to and whether it was down at the
/// last sample.
pub struct KeyPad {
    pub key_code: Key,
    pub pressed: bool,
}

impl KeyPad {
    fn new(key_code: Key) -> (r: Self)
        ensures
            !r.pressed,
    {
        KeyPad { key_code, pressed: false }
    }

    /// Samples the key from the device.  What the device answers is its
    /// own affair; the input interrupt is raised exactly on a rising edge.
    fn step<D: Device>(&mut self, device: &mut D, irq: &mut Irq)
        ensures
            final(self).key_code == old(self).key_code,
            final(irq)@ == if !old(self).pressed && final(self).pressed {
                old(irq)@ | 0x10u8
            } else {
                old(irq)@
            },
    {
        let new_pressed = device.key_down(self.key_code);
        if !self.pressed && new_pressed {
            irq.raise_interrupt(Interrupt::Gamepad);
        }

        self.pressed = new_pressed;
    }

    fn pressed(&self) -> (r: bool)
        ensures
            r == self.pressed,
    {
        self.pressed
    }
}

/// The whole pad: two matrix-select lines and the eight keys.
pub struct Gamepad {
    pub p15: bool,
    pub p14: bool,

    pub up: KeyPad,
    pub down: KeyPad,
    pub left: KeyPad,
    pub right: KeyPad,
    pub a: KeyPad,
    pub b: KeyPad,
    pub start: KeyPad,
    pub select: KeyPad,
}

/// The register byte the pad reads as: the two constant high bits, and a
/// cleared bit for each pressed key on whichever matrix half is selected.
pub open spec fn spec_gamepad_read(g: Gamepad) -> u8 {
    let base: u8 = 0xc0;
    let b1 = if !g.p15 && !g.a.pressed { base | 1u8 } else { base };
    let b2 = if !g.p15 && !g.b.pressed { b1 | 2u8 } else { b1 };
    let b3 = if !g.p15 && !g.select.pressed { b2 | 4u8 } else { b2 };
    let b4 = if !g.p15 && !g.start.pressed { b3 | 8u8 } else { b3 };
    let b5 = if !g.p14 && !g.right.pressed { b4 | 1u8 } else { b4 };
    let b6 = if !g.p14 && !g.left.pressed { b5 | 2u8 } else { b5 };
    let b7 = if !g.p14 && !g.up.pressed { b6 | 4u8 } else { b6 };
    if !g.p14 && !g.down.pressed { b7 | 8u8 } else { b7 }
}

impl Gamepad {
    /// A pad with the conventional key binding and nothing pressed.
    pub fn new() -> (r: Self)
        ensures
            !r.p15 && !r.p14,
            !r.up.pressed && !r.down.pressed && !r.left.pressed && !r.right.pressed,
            !r.a.pressed && !r.b.pressed && !r.start.pressed && !r.select.pressed,
    {
        Gamepad {
            p15: false,
            p14: false,

            up: KeyPad::new(Key::Up),
            down: KeyPad::new(Key::Down),
            left: KeyPad::new(Key::Left),
            right: KeyPad::new(Key::Right),
            a: KeyPad::new(Key::Z),
            b: KeyPad::new(Key::X),
            start: KeyPad::new(Key::Enter),
            select: KeyPad::new(Key::Backspace),
        }
    }

    /// Samples every key from the device.  The matrix-select lines are
    /// untouched, and the input-interrupt bit is raised — and nothing
    /// else — exactly when some key has a rising edge.
    pub fn step<D: Device>(&mut self, _cycles: u16, device: &mut D, irq: &mut Irq)
        ensures
            final(self).p15 == old(self).p15,
            final(self).p14 == old(self).p14,
            final(irq)@ == old(irq)@ || final(irq)@ == (old(irq)@ | 0x10u8),
    {
        proof {
            lemma_or_bit_idempotent(old(irq)@);
        }
        self.up.step(device, irq);
        self.down.step(device, irq);
        self.left.step(device, irq);
        self.right.step(device, irq);
        self.a.step(device, irq);
        self.b.step(device, irq);
        self.start.step(device, irq);
        self.select.step(device, irq);
    }

    /// Reads the pad register.
    pub fn read_reg(&self) -> (r: u8)
        ensures
            r == spec_gamepad_read(*self),
    {
        let mut ret: u8 = 0xc0;

        if !self.p15 {
            if !self.a.pressed() {
                ret = ret | 1;
            }
            if !self.b.pressed() {
                ret = ret | 2;
            }
            if !self.select.pressed() {
                ret = ret | 4;
            }
            if !self.start.pressed() {
                ret = ret | 8;
            }
        }
        if !self.p14 {
            if !self.right.pressed() {
                ret = ret | 1;
            }
            if !self.left.pressed() {
                ret = ret | 2;
            }
            if !self.up.pressed() {
                ret = ret | 4;
            }
            if !self.down.pressed() {
                ret = ret | 8;
            }
        }

        ret
    }

    /// Writes the matrix-select lines.
    pub fn write_reg(&mut self, val: u8)
        ensures
            *final(self) == (Gamepad {
                p15: val & 0x20 != 0,
                p14: val & 0x10 != 0,
                ..*old(self)
            }),
    {
        self.p15 = val & 0x20 != 0;
        self.p14 = val & 0x10 != 0;
    }
}

proof fn lemma_or_bit_idempotent(x: u8)
    by (bit_vector)
    ensures
        (x | 0x10) | 0x10 == x | 0x10,
{
}

} // verus!
