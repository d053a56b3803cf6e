//! The timer peripheral: a free-running divider, a programmable counter
//! clocked by a falling edge of a selected divider bit, and the delayed
//! reload of the counter from its modulo register after an overflow.

use vstd::prelude::*;
use crate::interrupt::{Irq, Interrupt};
use crate::nums::{w_add, w8p, hi8};

verus! {

/// The timer's registers and edge-detection state.
pub struct Timer {
    pub divider: u16,
    pub timer_counter: u8,
    pub timer_modulo: u8,

    pub timer_clock_select: u8,
    pub timer_enable: bool,

    pub tac_edge_delay: u8,
    pub tac_reload_delay: u8,
}

/// The control-register byte: the clock select in the low two bits, the
/// enable bit above them.
pub open spec fn spec_timer_control(t: Timer) -> u8 {
    t.timer_clock_select | (if t.timer_enable { 4u8 } else { 0u8 })
}

/// The divider bit the counter is clocked from, per the clock select, or
/// zero while the timer is disabled.
pub open spec fn spec_divider_bit(t: Timer) -> u16 {
    if !t.timer_enable {
        0
    } else if t.timer_clock_select == 0 {
        (t.divider >> 9) & 1
    } else if t.timer_clock_select == 1 {
        (t.divider >> 3) & 1
    } else if t.timer_clock_select == 2 {
        (t.divider >> 5) & 1
    } else {
        (t.divider >> 7) & 1
    }
}

/// Re-samples the clocking bit: on a falling edge the counter increments,
/// and an overflow arms the four-cycle reload delay and requests an
/// interrupt (the boolean).
pub open spec fn spec_divider_change(t: Timer) -> (Timer, bool) {
    let nd = spec_divider_bit(t);
    let ticked = t.tac_edge_delay == 1 && nd == 0;
    let fired = ticked && t.timer_counter == 0xff;
    (
        Timer {
            timer_counter: if ticked { w8p(t.timer_counter + 1) } else { t.timer_counter },
            tac_reload_delay: if fired { 4u8 } else { t.tac_reload_delay },
            tac_edge_delay: nd as u8,
            ..t
        },
        fired,
    )
}

/// One machine cycle: the reload delay ticks down (loading the modulo when
/// it runs out), the divider advances, and the clocking edge is re-sampled.
pub open spec fn spec_timer_tick(t: Timer) -> (Timer, bool) {
    let t1 = if t.tac_reload_delay > 0 {
        let rd = (t.tac_reload_delay - 1) as u8;
        Timer {
            tac_reload_delay: rd,
            timer_counter: if rd == 0 { t.timer_modulo } else { t.timer_counter },
            ..t
        }
    } else {
        t
    };
    let t2 = Timer { divider: w_add(t1.divider, 1), ..t1 };
    spec_divider_change(t2)
}

/// `n` machine cycles; the boolean says whether any of them requested an
/// interrupt.
pub open spec fn spec_timer_ticks(t: Timer, n: nat) -> (Timer, bool)
    decreases n,
{
    if n == 0 {
        (t, false)
    } else {
        let r1 = spec_timer_tick(t);
        let r2 = spec_timer_ticks(r1.0, (n - 1) as nat);
        (r2.0, r1.1 || r2.1)
    }
}

/// The effect of a register write: the divider register resets on any
/// write, a counter write cancels a pending reload, and every write
/// re-samples the clocking edge.
pub open spec fn spec_timer_write_reg(t: Timer, addr: u16, val: u8) -> Timer {
    let t1 = if addr == 0xff04 {
        Timer { divider: 0, ..t }
    } else if addr == 0xff05 {
        Timer { timer_counter: val, tac_reload_delay: 0, ..t }
    } else if addr == 0xff06 {
        Timer { timer_modulo: val, ..t }
    } else {
        Timer { timer_enable: val & 4 != 0, timer_clock_select: (val & 3) as u8, ..t }
    };
    spec_divider_change(t1).0
}

/// The byte each timer register reads as.
pub open spec fn spec_timer_read_reg(t: Timer, addr: u16) -> u8 {
    if addr == 0xff04 {
        hi8(t.divider)
    } else if addr == 0xff05 {
        t.timer_counter
    } else if addr == 0xff06 {
        t.timer_modulo
    } else {
        spec_timer_control(t)
    }
}

impl Default for Timer {
    /// The power-on timer state: the divider mid-count, everything else
    /// clear.
    fn default() -> (r: Self)
        ensures
            r == (Timer {
                divider: 0xabccu16,
                timer_counter: 0u8,
                timer_modulo: 0u8,
                timer_clock_select: 0u8,
                timer_enable: false,
                tac_edge_delay: 0u8,
                tac_reload_delay: 0u8,
            }),
    {
        Timer {
            divider: 0xabcc,
            timer_counter: 0,
            timer_modulo: 0,

            timer_clock_select: 0,
            timer_enable: false,

            tac_edge_delay: 0,
            tac_reload_delay: 0,
        }
    }
}

impl Timer {
    /// Reads one of the four timer registers.
    pub fn read_reg(&self, addr: u16) -> (r: u8)
        requires
            0xff04 <= addr <= 0xff07,
        ensures
            r == spec_timer_read_reg(*self, addr),
    {
        if addr == 0xff04 {
            (self.divider / 256) as u8
        } else if addr == 0xff05 {
            self.timer_counter
        } else if addr == 0xff06 {
            self.timer_modulo
        } else {
            self.timer_control()
        }
    }

    /// Writes one of the four timer registers.
    pub fn write_reg(&mut self, addr: u16, val: u8)
        requires
            0xff04 <= addr <= 0xff07,
        ensures
            *final(self) == spec_timer_write_reg(*old(self), addr, val),
    {
        if addr == 0xff04 {
            self.divider = 0;
        } else if addr == 0xff05 {
            self.timer_counter = val;
            self.tac_reload_delay = 0;
        } else if addr == 0xff06 {
            self.timer_modulo = val;
        } else {
            self.set_timer_control(val);
        }
        let _ = self.divider_change();
    }

    /// Advances the timer by `cycles` machine cycles and raises the timer
    /// interrupt if any cycle's counter overflowed.
    pub fn step(&mut self, cycles: u16, irq: &mut Irq)
        ensures
            *final(self) == spec_timer_ticks(*old(self), cycles as nat).0,
            final(irq)@ == if spec_timer_ticks(*old(self), cycles as nat).1 {
                old(irq)@ | 0x04u8
            } else {
                old(irq)@
            },
    {
        let mut fired = false;
        let mut i: u16 = 0;
        while i < cycles
            invariant
                i <= cycles,
                *self == spec_timer_ticks(*old(self), i as nat).0,
                fired == spec_timer_ticks(*old(self), i as nat).1,
            decreases cycles - i,
        {
            proof {
                lemma_timer_ticks_snoc(*old(self), i as nat);
            }
            let f = self.tick();
            fired = fired || f;
            i = i + 1;
        }
        if fired {
            irq.raise_interrupt(Interrupt::Timer);
        }
    }

    /// One machine cycle, as [`spec_timer_tick`] describes.
    fn tick(&mut self) -> (fired: bool)
        ensures
            *final(self) == spec_timer_tick(*old(self)).0,
            fired == spec_timer_tick(*old(self)).1,
    {
        if self.tac_reload_delay > 0 {
            self.tac_reload_delay = self.tac_reload_delay - 1;
            if self.tac_reload_delay == 0 {
                self.timer_counter = self.timer_modulo;
            }
        }
        self.divider = self.divider.wrapping_add(1);
        self.divider_change()
    }

    /// The control-register byte.
    pub fn timer_control(&self) -> (r: u8)
        ensures
            r == spec_timer_control(*self),
    {
        let enabled: u8 = if self.timer_enable {
            4
        } else {
            0
        };
        self.timer_clock_select | enabled
    }

    fn divider_change(&mut self) -> (fired: bool)
        ensures
            *final(self) == spec_divider_change(*old(self)).0,
            fired == spec_divider_change(*old(self)).1,
    {
        let new_delay: u16 = if !self.timer_enable {
            0
        } else if self.timer_clock_select == 0 {
            (self.divider >> 9) & 1
        } else if self.timer_clock_select == 1 {
            (self.divider >> 3) & 1
        } else if self.timer_clock_select == 2 {
            (self.divider >> 5) & 1
        } else {
            (self.divider >> 7) & 1
        };

        let mut fired = false;
        if self.tac_edge_delay == 1 && new_delay == 0 {
            if self.timer_counter == 0xff {
                self.timer_counter = 0;
                fired = true;
                self.tac_reload_delay = 4;
            } else {
                self.timer_counter = self.timer_counter + 1;
            }
        }

        self.tac_edge_delay = new_delay as u8;
        fired
    }

    fn set_timer_control(&mut self, val: u8)
        ensures
            *final(self) == (Timer {
                timer_enable: val & 4 != 0,
                timer_clock_select: (val & 3) as u8,
                ..*old(self)
            }),
    {
        self.timer_enable = val & 4 != 0;
        self.timer_clock_select = val & 0x3;
    }
}

/// Unrolling one more cycle at the end of a run of timer ticks.
proof fn lemma_timer_ticks_snoc(t: Timer, n: nat)
    ensures
        spec_timer_ticks(t, n + 1).0 == spec_timer_tick(spec_timer_ticks(t, n).0).0,
        spec_timer_ticks(t, n + 1).1 == (spec_timer_ticks(t, n).1 || spec_timer_tick(
            spec_timer_ticks(t, n).0,
        ).1),
    decreases n,
{
    if n == 0 {
        assert(spec_timer_ticks(t, 1) == (spec_timer_tick(t).0, spec_timer_tick(t).1 || false)) by {
            assert(spec_timer_ticks(spec_timer_tick(t).0, 0) == (spec_timer_tick(t).0, false));
        }
    } else {
        lemma_timer_ticks_snoc(spec_timer_tick(t).0, (n - 1) as nat);
        assert(spec_timer_ticks(t, n + 1).0 == spec_timer_ticks(spec_timer_tick(t).0, n).0);
        assert(spec_timer_ticks(t, n).0 == spec_timer_ticks(spec_timer_tick(t).0, (n - 1) as nat).0);
    }
}

} // verus!
