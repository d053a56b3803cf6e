//! The per-step interrupt accumulator peripherals raise requests into.

use vstd::prelude::*;

verus! {

/// The five interrupt sources a peripheral can request service for.
pub enum Interrupt {
    VBlank,
    Stat,
    Timer,
    SerialIO,
    Gamepad,
}

/// The request-flag bit assigned to each interrupt source.
pub open spec fn interrupt_bit(kind: Interrupt) -> u8 {
    match kind {
        Interrupt::VBlank => 0x01,
        Interrupt::Stat => 0x02,
        Interrupt::Timer => 0x04,
        Interrupt::SerialIO => 0x08,
        Interrupt::Gamepad => 0x10,
    }
}

/// A scratch collector for the interrupts raised during one bus step.
/// It holds no state between steps: each step folds a fresh accumulator
/// into the persistent interrupt-flag register.
pub struct Irq {
    iflags: u8,
}

impl Irq {
    /// The request bits collected so far.
    pub closed spec fn view(&self) -> u8 {
        self.iflags
    }

    /// Sets the request bit for `int`, keeping every bit already raised.
    pub fn raise_interrupt(&mut self, kind: Interrupt)
        ensures
            final(self)@ == old(self)@ | interrupt_bit(kind),
    {
        self.iflags = self.iflags | match kind {
            Interrupt::VBlank => 0x01,
            Interrupt::Stat => 0x02,
            Interrupt::Timer => 0x04,
            Interrupt::SerialIO => 0x08,
            Interrupt::Gamepad => 0x10,
        };
    }

    /// The collected requests with the three hardware-constant high bits set,
    /// ready to fold into the interrupt-flag register.
    pub fn get_if(&self) -> (r: u8)
        ensures
            r == self@ | 0xe0,
    {
        self.iflags | 0xe0
    }
}

impl Default for Irq {
    /// An accumulator with no request raised.
    fn default() -> (r: Self)
        ensures
            r@ == 0,
    {
        Irq { iflags: 0 }
    }
}

} // verus!
