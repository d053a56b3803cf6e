//! The processor: registers, flags, and the fetch-decode-execute step.
//!
//! `Cpu::step` performs exactly one instruction against a [`Bus`]: it
//! fetches the opcode at the program counter, executes the instruction's
//! effect, runs the delayed interrupt-disable countdown, and returns the
//! cycles consumed.  The whole effect — every register, flag, the program
//! counter, the stack pointer, and each byte written to the bus — is pinned
//! down by the specification functions in this module, as a function of the
//! starting state and of the bytes the bus returned.  Fetching an opcode
//! with no defined behaviour is a fatal fault, reported as an error rather
//! than a panic so the driver loop can halt.

use vstd::prelude::*;
use crate::bus::{Bus, spec_write2};
use crate::nums::{w_add, w_sub, w8p, w8m, hw, hi8, lo8, sign_ext};

verus! {

/// The four condition flags, stored in the high nibble of the virtual
/// flag register: zero, subtract, half-carry, carry.
#[derive(Clone, Copy, Debug, PartialEq, Eq, Structural)]
pub struct Flags {
    pub z: bool,
    pub n: bool,
    pub h: bool,
    pub c: bool,
}

/// The byte encoding of the flags: z at bit 7, n at 6, h at 5, c at 4,
/// low nibble always zero.
pub open spec fn flags_to_byte(f: Flags) -> u8 {
    (if f.c { 0x10u8 } else { 0u8 }) | (if f.h { 0x20u8 } else { 0u8 })
        | (if f.n { 0x40u8 } else { 0u8 }) | (if f.z { 0x80u8 } else { 0u8 })
}

/// The flags read back from a byte; the low nibble is ignored.
pub open spec fn flags_from_byte(v: u8) -> Flags {
    Flags { z: v & 0x80 != 0, n: v & 0x40 != 0, h: v & 0x20 != 0, c: v & 0x10 != 0 }
}

impl From<u8> for Flags {
    fn from(value: u8) -> Self {
        Flags {
            z: value & 0x80 != 0,
            n: value & 0x40 != 0,
            h: value & 0x20 != 0,
            c: value & 0x10 != 0,
        }
    }
}

impl vstd::std_specs::convert::FromSpecImpl<u8> for Flags {
    open spec fn obeys_from_spec() -> bool {
        true
    }

    open spec fn from_spec(v: u8) -> Self {
        flags_from_byte(v)
    }
}

impl From<Flags> for u8 {
    fn from(f: Flags) -> Self {
        (if f.c { 0x10u8 } else { 0u8 }) | (if f.h { 0x20u8 } else { 0u8 })
            | (if f.n { 0x40u8 } else { 0u8 }) | (if f.z { 0x80u8 } else { 0u8 })
    }
}

impl vstd::std_specs::convert::FromSpecImpl<Flags> for u8 {
    open spec fn obeys_from_spec() -> bool {
        true
    }

    open spec fn from_spec(f: Flags) -> Self {
        flags_to_byte(f)
    }
}

/// The processor state: eight 8-bit registers (three pairs plus the
/// accumulator and flags), the stack pointer, the program counter, and the
/// delayed interrupt-disable countdown.
pub struct Cpu {
    pub a: u8,
    pub f: Flags,
    pub b: u8,
    pub c: u8,
    pub d: u8,
    pub e: u8,
    pub h: u8,
    pub l: u8,

    pub sp: u16,
    pub pc: u16,

    pub instructions_to_di: u8,
    pub interrupts_enabled: bool,
}

/// A fatal emulation fault: the fetched opcode has no defined behaviour.
/// The driver loop checks for it and halts; emulation cannot continue.
#[derive(Clone, Copy, Debug, PartialEq, Eq, Structural)]
pub enum StepFault {
    /// An undefined primary opcode.
    Undefined(u8),
    /// An undefined opcode in the extended (escaped) opcode space.
    UndefinedExtended(u8),
}

// ---------------------------------------------------------------------------
// Cycle-cost tables
// ---------------------------------------------------------------------------

/// The 256-entry base cycle-cost table for the primary opcode space.
/// Conditional jumps carry their not-taken cost here; the taken cost adds
/// a fixed extra.  Escape and undefined entries carry zero.
pub open spec fn base_cycle_cost(op: u8) -> u16 {
    match op {
        0x10 | 0x76 | 0xcb | 0xd3 | 0xdb | 0xdd | 0xe3 | 0xe4 | 0xeb | 0xec | 0xed | 0xf4 | 0xfc
            | 0xfd => 0,
        0x02 | 0x03 | 0x06 | 0x09 | 0x0a | 0x0b | 0x0e | 0x12 | 0x13 | 0x16 | 0x19 | 0x1a | 0x1b
            | 0x1e | 0x20 | 0x22 | 0x23 | 0x26 | 0x28 | 0x29 | 0x2a | 0x2b | 0x2e | 0x30 | 0x32
            | 0x33 | 0x38 | 0x39 | 0x3a | 0x3b | 0x3e | 0x46 | 0x4e | 0x56 | 0x5e | 0x66 | 0x6e
            | 0x70 | 0x71 | 0x72 | 0x73 | 0x74 | 0x75 | 0x77 | 0x7e | 0x86 | 0x8e | 0x96 | 0x9e
            | 0xa6 | 0xae | 0xb6 | 0xbe | 0xc0 | 0xc6 | 0xc8 | 0xce | 0xd0 | 0xd6 | 0xd8 | 0xde
            | 0xe2 | 0xe6 | 0xee | 0xf2 | 0xf6 | 0xf9 | 0xfe => 8,
        0x01 | 0x11 | 0x18 | 0x21 | 0x31 | 0x34 | 0x35 | 0x36 | 0xc1 | 0xc2 | 0xc4 | 0xca | 0xcc
            | 0xd1 | 0xd2 | 0xd4 | 0xda | 0xdc | 0xe0 | 0xe1 | 0xf0 | 0xf1 | 0xf8 => 12,
        0xc3 | 0xc5 | 0xc7 | 0xc9 | 0xcf | 0xd5 | 0xd7 | 0xd9 | 0xdf | 0xe5 | 0xe7 | 0xe8 | 0xea
            | 0xef | 0xf5 | 0xf7 | 0xfa | 0xff => 16,
        0x08 => 20,
        0xcd => 24,
        _ => 4,
    }
}

/// The 256-entry cycle-cost table for the extended (escaped) opcode space,
/// added on top of the base cost of the escape opcode.
pub open spec fn cb_cycle_cost(op: u8) -> u16 {
    if op & 7 == 6 {
        if 0x40 <= op && op <= 0x7f {
            12
        } else {
            16
        }
    } else {
        8
    }
}

// ---------------------------------------------------------------------------
// Arithmetic and logic effects: result plus the four flags
// ---------------------------------------------------------------------------

/// 8-bit add with optional carry-in: zero as usual, subtract clear,
/// half-carry when the low nibbles plus carry-in exceed 0xf, carry when the
/// whole sum exceeds 0xff.
pub open spec fn spec_addc(a: u8, v: u8, cin: bool) -> (u8, Flags) {
    let ci: int = if cin { 1 } else { 0 };
    let r = w8p(a + v + ci);
    (r, Flags { z: r == 0, n: false, h: (a % 16) + (v % 16) + ci > 0xf, c: a + v + ci > 0xff })
}

/// 8-bit subtract with optional carry-in: zero as usual, subtract set,
/// half-carry when the right low nibble plus carry-in exceeds the left low
/// nibble, carry when the operation underflows.
pub open spec fn spec_subc(a: u8, v: u8, cin: bool) -> (u8, Flags) {
    let ci: int = if cin { 1 } else { 0 };
    let r = w8m(a - v - ci);
    (r, Flags { z: r == 0, n: true, h: (v % 16) + ci > (a % 16), c: a - v - ci < 0 })
}

/// Bitwise AND: subtract and carry clear, half-carry constantly set.
pub open spec fn spec_and(a: u8, v: u8) -> (u8, Flags) {
    let r = a & v;
    (r, Flags { z: r == 0, n: false, h: true, c: false })
}

/// Bitwise OR: subtract, half-carry and carry clear.
pub open spec fn spec_or(a: u8, v: u8) -> (u8, Flags) {
    let r = a | v;
    (r, Flags { z: r == 0, n: false, h: false, c: false })
}

/// Bitwise XOR: subtract, half-carry and carry clear.
pub open spec fn spec_xor(a: u8, v: u8) -> (u8, Flags) {
    let r = a ^ v;
    (r, Flags { z: r == 0, n: false, h: false, c: false })
}

/// 8-bit increment: half-carry when the result's low nibble is zero;
/// carry unaffected.
pub open spec fn spec_inc(v: u8, f: Flags) -> (u8, Flags) {
    let r = w8p(v + 1);
    (r, Flags { z: r == 0, n: false, h: r % 16 == 0, c: f.c })
}

/// 8-bit decrement: half-carry when the result's low nibble is 0xf;
/// carry unaffected.
pub open spec fn spec_dec(v: u8, f: Flags) -> (u8, Flags) {
    let r = w8m(v - 1);
    (r, Flags { z: r == 0, n: true, h: r % 16 == 0xf, c: f.c })
}

/// 16-bit register-pair add: zero unaffected, subtract clear, half-carry
/// from the low 12 bits, carry on 16-bit overflow.
pub open spec fn spec_add16(l: u16, r: u16, f: Flags) -> (u16, Flags) {
    let v = w_add(l, r);
    (v, Flags { z: f.z, n: false, h: (l % 0x1000) + (r % 0x1000) > 0xfff, c: l + r > 0xffff })
}

/// Nibble swap: zero from the operand; the other flags are unaffected.
pub open spec fn spec_swap(v: u8, f: Flags) -> (u8, Flags) {
    (((v & 0x0f) << 4) | ((v & 0xf0) >> 4), Flags { z: v == 0, ..f })
}

// ---------------------------------------------------------------------------
// Register-file helpers
// ---------------------------------------------------------------------------

/// The 8-bit register selected by a 3-bit operand field
/// (0 B, 1 C, 2 D, 3 E, 4 H, 5 L, 7 A; 6 addresses memory instead).
pub open spec fn reg8(c: Cpu, i: u8) -> u8 {
    if i == 0 {
        c.b
    } else if i == 1 {
        c.c
    } else if i == 2 {
        c.d
    } else if i == 3 {
        c.e
    } else if i == 4 {
        c.h
    } else if i == 5 {
        c.l
    } else {
        c.a
    }
}

/// The processor with the register selected by `i` replaced by `v`.
pub open spec fn set_reg8(c: Cpu, i: u8, v: u8) -> Cpu {
    if i == 0 {
        Cpu { b: v, ..c }
    } else if i == 1 {
        Cpu { c: v, ..c }
    } else if i == 2 {
        Cpu { d: v, ..c }
    } else if i == 3 {
        Cpu { e: v, ..c }
    } else if i == 4 {
        Cpu { h: v, ..c }
    } else if i == 5 {
        Cpu { l: v, ..c }
    } else {
        Cpu { a: v, ..c }
    }
}

/// The condition tested by a conditional relative jump
/// (0x20 not-zero, 0x28 zero, 0x30 not-carry, 0x38 carry).
pub open spec fn jr_condition(f: Flags, op: u8) -> bool {
    if op == 0x20 {
        !f.z
    } else if op == 0x28 {
        f.z
    } else if op == 0x30 {
        !f.c
    } else {
        f.c
    }
}

// ---------------------------------------------------------------------------
// The instruction interpreter, as a specification
// ---------------------------------------------------------------------------

/// The register-and-cycle effect of one instruction.  `c` is the state
/// after the opcode fetch (program counter already past the opcode); `b` is
/// the bus state the instruction's reads see.  `None` means the opcode has
/// no defined behaviour and emulation must stop.  What the instruction
/// writes to the bus is given by [`spec_instr_bus`].
pub open spec fn spec_instr<B: Bus>(c: Cpu, b: B, op: u8) -> Option<(Cpu, u16)> {
    let hl = hw(c.h, c.l);
    if 0x40 <= op && op <= 0x7f && op != 0x76 {
        // The 8-bit register-to-register load block.
        let dst = (op >> 3) & 7;
        let src = op & 7;
        if src == 6 {
            Some((set_reg8(c, dst, b.bus_read(hl)), 8))
        } else if dst == 6 {
            Some((c, 8))
        } else {
            Some((set_reg8(c, dst, reg8(c, src)), 4))
        }
    } else if 0x80 <= op && op <= 0xbf {
        // The 8-bit arithmetic/logic block: add, adc, sub, sbc, and, xor,
        // or, compare, each against a register or the byte at HL.
        let kind = (op >> 3) & 7;
        let src = op & 7;
        let v = if src == 6 { b.bus_read(hl) } else { reg8(c, src) };
        let cyc: u16 = if src == 6 { 8 } else { 4 };
        let rf = if kind == 0 {
            spec_addc(c.a, v, false)
        } else if kind == 1 {
            spec_addc(c.a, v, c.f.c)
        } else if kind == 2 || kind == 7 {
            spec_subc(c.a, v, false)
        } else if kind == 3 {
            spec_subc(c.a, v, c.f.c)
        } else if kind == 4 {
            spec_and(c.a, v)
        } else if kind == 5 {
            spec_xor(c.a, v)
        } else {
            spec_or(c.a, v)
        };
        if kind == 7 {
            Some((Cpu { f: rf.1, ..c }, cyc))
        } else {
            Some((Cpu { a: rf.0, f: rf.1, ..c }, cyc))
        }
    } else {
        match op {
            0x00 => Some((c, 4)),
            0x01 => Some((
                Cpu { b: b.bus_read(w_add(c.pc, 1)), c: b.bus_read(c.pc), pc: w_add(c.pc, 2), ..c },
                12,
            )),
            0x02 => Some((c, 8)),
            0x03 => {
                let v = w_add(hw(c.b, c.c), 1);
                Some((Cpu { b: hi8(v), c: lo8(v), ..c }, 8))
            }
            0x04 => { let rf = spec_inc(c.b, c.f); Some((Cpu { b: rf.0, f: rf.1, ..c }, 4)) }
            0x05 => { let rf = spec_dec(c.b, c.f); Some((Cpu { b: rf.0, f: rf.1, ..c }, 4)) }
            0x06 => Some((Cpu { b: b.bus_read(c.pc), pc: w_add(c.pc, 1), ..c }, 8)),
            0x08 => Some((Cpu { pc: w_add(c.pc, 2), ..c }, 20)),
            0x09 => {
                let rf = spec_add16(hl, hw(c.b, c.c), c.f);
                Some((Cpu { h: hi8(rf.0), l: lo8(rf.0), f: rf.1, ..c }, 8))
            }
            0x0a => Some((Cpu { a: b.bus_read(hw(c.b, c.c)), ..c }, 8)),
            0x0b => {
                let v = w_sub(hw(c.b, c.c), 1);
                Some((Cpu { b: hi8(v), c: lo8(v), ..c }, 8))
            }
            0x0c => { let rf = spec_inc(c.c, c.f); Some((Cpu { c: rf.0, f: rf.1, ..c }, 4)) }
            0x0d => { let rf = spec_dec(c.c, c.f); Some((Cpu { c: rf.0, f: rf.1, ..c }, 4)) }
            0x0e => Some((Cpu { c: b.bus_read(c.pc), pc: w_add(c.pc, 1), ..c }, 8)),
            0x11 => Some((
                Cpu { d: b.bus_read(w_add(c.pc, 1)), e: b.bus_read(c.pc), pc: w_add(c.pc, 2), ..c },
                12,
            )),
            0x12 => Some((c, 8)),
            0x13 => {
                let v = w_add(hw(c.d, c.e), 1);
                Some((Cpu { d: hi8(v), e: lo8(v), ..c }, 8))
            }
            0x14 => { let rf = spec_inc(c.d, c.f); Some((Cpu { d: rf.0, f: rf.1, ..c }, 4)) }
            0x15 => { let rf = spec_dec(c.d, c.f); Some((Cpu { d: rf.0, f: rf.1, ..c }, 4)) }
            0x16 => Some((Cpu { d: b.bus_read(c.pc), pc: w_add(c.pc, 1), ..c }, 8)),
            0x18 => Some((
                Cpu { pc: w_add(w_add(c.pc, 1), sign_ext(b.bus_read(c.pc))), ..c },
                12,
            )),
            0x19 => {
                let rf = spec_add16(hl, hw(c.d, c.e), c.f);
                Some((Cpu { h: hi8(rf.0), l: lo8(rf.0), f: rf.1, ..c }, 8))
            }
            0x1a => Some((Cpu { a: b.bus_read(hw(c.d, c.e)), ..c }, 8)),
            0x1b => {
                let v = w_sub(hw(c.d, c.e), 1);
                Some((Cpu { d: hi8(v), e: lo8(v), ..c }, 8))
            }
            0x1c => { let rf = spec_inc(c.e, c.f); Some((Cpu { e: rf.0, f: rf.1, ..c }, 4)) }
            0x1d => { let rf = spec_dec(c.e, c.f); Some((Cpu { e: rf.0, f: rf.1, ..c }, 4)) }
            0x1e => Some((Cpu { e: b.bus_read(c.pc), pc: w_add(c.pc, 1), ..c }, 8)),
            0x20 | 0x28 | 0x30 | 0x38 => {
                // Conditional relative jump: the base cost when the
                // condition is false, four cycles more when it is true.
                if jr_condition(c.f, op) {
                    Some((
                        Cpu { pc: w_add(w_add(c.pc, 1), sign_ext(b.bus_read(c.pc))), ..c },
                        12,
                    ))
                } else {
                    Some((Cpu { pc: w_add(c.pc, 1), ..c }, 8))
                }
            }
            0x21 => Some((
                Cpu { h: b.bus_read(w_add(c.pc, 1)), l: b.bus_read(c.pc), pc: w_add(c.pc, 2), ..c },
                12,
            )),
            0x22 => {
                let v = w_add(hl, 1);
                Some((Cpu { h: hi8(v), l: lo8(v), ..c }, 8))
            }
            0x23 => {
                let v = w_add(hl, 1);
                Some((Cpu { h: hi8(v), l: lo8(v), ..c }, 8))
            }
            0x24 => { let rf = spec_inc(c.h, c.f); Some((Cpu { h: rf.0, f: rf.1, ..c }, 4)) }
            0x25 => { let rf = spec_dec(c.h, c.f); Some((Cpu { h: rf.0, f: rf.1, ..c }, 4)) }
            0x26 => Some((Cpu { h: b.bus_read(c.pc), pc: w_add(c.pc, 1), ..c }, 8)),
            0x29 => {
                let rf = spec_add16(hl, hl, c.f);
                Some((Cpu { h: hi8(rf.0), l: lo8(rf.0), f: rf.1, ..c }, 8))
            }
            0x2a => {
                let v = w_add(hl, 1);
                Some((Cpu { a: b.bus_read(hl), h: hi8(v), l: lo8(v), ..c }, 8))
            }
            0x2b => {
                let v = w_sub(hl, 1);
                Some((Cpu { h: hi8(v), l: lo8(v), ..c }, 8))
            }
            0x2c => { let rf = spec_inc(c.l, c.f); Some((Cpu { l: rf.0, f: rf.1, ..c }, 4)) }
            0x2d => { let rf = spec_dec(c.l, c.f); Some((Cpu { l: rf.0, f: rf.1, ..c }, 4)) }
            0x2e => Some((Cpu { l: b.bus_read(c.pc), pc: w_add(c.pc, 1), ..c }, 8)),
            0x2f => Some((
                Cpu { a: !c.a, f: Flags { n: true, h: true, ..c.f }, ..c },
                4,
            )),
            0x31 => Some((
                Cpu { sp: hw(b.bus_read(w_add(c.pc, 1)), b.bus_read(c.pc)), pc: w_add(c.pc, 2), ..c },
                12,
            )),
            0x32 => {
                let v = w_sub(hl, 1);
                Some((Cpu { h: hi8(v), l: lo8(v), ..c }, 8))
            }
            0x33 => Some((Cpu { sp: w_add(c.sp, 1), ..c }, 8)),
            0x34 => {
                let rf = spec_inc(b.bus_read(hl), c.f);
                Some((Cpu { f: rf.1, ..c }, 12))
            }
            0x35 => {
                let rf = spec_dec(b.bus_read(hl), c.f);
                Some((Cpu { f: rf.1, ..c }, 12))
            }
            0x36 => Some((Cpu { pc: w_add(c.pc, 1), ..c }, 12)),
            0x37 => Some((Cpu { f: Flags { n: false, h: false, c: true, ..c.f }, ..c }, 4)),
            0x39 => {
                let rf = spec_add16(hl, c.sp, c.f);
                Some((Cpu { h: hi8(rf.0), l: lo8(rf.0), f: rf.1, ..c }, 8))
            }
            0x3a => {
                let v = w_sub(hl, 1);
                Some((Cpu { a: b.bus_read(hl), h: hi8(v), l: lo8(v), ..c }, 8))
            }
            0x3b => Some((Cpu { sp: w_sub(c.sp, 1), ..c }, 8)),
            0x3c => { let rf = spec_inc(c.a, c.f); Some((Cpu { a: rf.0, f: rf.1, ..c }, 4)) }
            0x3d => { let rf = spec_dec(c.a, c.f); Some((Cpu { a: rf.0, f: rf.1, ..c }, 4)) }
            0x3e => Some((Cpu { a: b.bus_read(c.pc), pc: w_add(c.pc, 1), ..c }, 8)),
            0x3f => Some((
                Cpu { f: Flags { n: false, h: false, c: !c.f.c, ..c.f }, ..c },
                4,
            )),
            0xc1 => Some((
                Cpu { c: b.bus_read(c.sp), b: b.bus_read(w_add(c.sp, 1)), sp: w_add(c.sp, 2), ..c },
                12,
            )),
            0xc3 => Some((
                Cpu { pc: hw(b.bus_read(w_add(c.pc, 1)), b.bus_read(c.pc)), ..c },
                16,
            )),
            0xc5 => Some((Cpu { sp: w_sub(c.sp, 2), ..c }, 16)),
            0xc6 => {
                let rf = spec_addc(c.a, b.bus_read(c.pc), false);
                Some((Cpu { a: rf.0, f: rf.1, pc: w_add(c.pc, 1), ..c }, 8))
            }
            0xc9 => Some((
                Cpu { pc: hw(b.bus_read(w_add(c.sp, 1)), b.bus_read(c.sp)), sp: w_add(c.sp, 2), ..c },
                16,
            )),
            0xcb => {
                // The extended opcode space; only the nibble swaps are
                // defined here.
                let sub = b.bus_read(c.pc);
                let c2 = Cpu { pc: w_add(c.pc, 1), ..c };
                if 0x30 <= sub && sub <= 0x37 {
                    if sub == 0x36 {
                        let rf = spec_swap(b.bus_read(hl), c.f);
                        Some((Cpu { f: rf.1, ..c2 }, 16))
                    } else {
                        let i = sub & 7;
                        let rf = spec_swap(reg8(c, i), c.f);
                        Some((Cpu { f: rf.1, ..set_reg8(c2, i, rf.0) }, 8))
                    }
                } else {
                    None
                }
            }
            0xcd => Some((
                Cpu {
                    pc: hw(b.bus_read(w_add(c.pc, 1)), b.bus_read(c.pc)),
                    sp: w_sub(c.sp, 2),
                    ..c
                },
                24,
            )),
            0xce => {
                let rf = spec_addc(c.a, b.bus_read(c.pc), c.f.c);
                Some((Cpu { a: rf.0, f: rf.1, pc: w_add(c.pc, 1), ..c }, 8))
            }
            0xd1 => Some((
                Cpu { e: b.bus_read(c.sp), d: b.bus_read(w_add(c.sp, 1)), sp: w_add(c.sp, 2), ..c },
                12,
            )),
            0xd5 => Some((Cpu { sp: w_sub(c.sp, 2), ..c }, 16)),
            0xd6 => {
                let rf = spec_subc(c.a, b.bus_read(c.pc), false);
                Some((Cpu { a: rf.0, f: rf.1, pc: w_add(c.pc, 1), ..c }, 8))
            }
            0xde => {
                let rf = spec_subc(c.a, b.bus_read(c.pc), c.f.c);
                Some((Cpu { a: rf.0, f: rf.1, pc: w_add(c.pc, 1), ..c }, 8))
            }
            0xe0 => Some((Cpu { pc: w_add(c.pc, 1), ..c }, 12)),
            0xe1 => Some((
                Cpu { l: b.bus_read(c.sp), h: b.bus_read(w_add(c.sp, 1)), sp: w_add(c.sp, 2), ..c },
                12,
            )),
            0xe2 => Some((c, 8)),
            0xe5 => Some((Cpu { sp: w_sub(c.sp, 2), ..c }, 16)),
            0xe6 => {
                let rf = spec_and(c.a, b.bus_read(c.pc));
                Some((Cpu { a: rf.0, f: rf.1, pc: w_add(c.pc, 1), ..c }, 8))
            }
            0xe8 => {
                // Add a sign-extended immediate to the stack pointer; zero
                // and subtract clear, half-carry and carry from the byte add.
                let n = b.bus_read(c.pc);
                let off = sign_ext(n);
                Some((
                    Cpu {
                        sp: w_add(c.sp, off),
                        f: Flags {
                            z: false,
                            n: false,
                            h: (c.sp % 16) + (n % 16) > 0xf,
                            c: c.sp + off > 0xffff,
                        },
                        pc: w_add(c.pc, 1),
                        ..c
                    },
                    16,
                ))
            }
            0xea => Some((Cpu { pc: w_add(c.pc, 2), ..c }, 16)),
            0xee => {
                let rf = spec_xor(c.a, b.bus_read(c.pc));
                Some((Cpu { a: rf.0, f: rf.1, pc: w_add(c.pc, 1), ..c }, 8))
            }
            0xf0 => Some((
                Cpu {
                    a: b.bus_read((0xff00 + b.bus_read(c.pc)) as u16),
                    pc: w_add(c.pc, 1),
                    ..c
                },
                12,
            )),
            0xf1 => Some((
                Cpu {
                    f: flags_from_byte(b.bus_read(c.sp)),
                    a: b.bus_read(w_add(c.sp, 1)),
                    sp: w_add(c.sp, 2),
                    ..c
                },
                12,
            )),
            0xf2 => Some((Cpu { a: b.bus_read((0xff00 + c.c) as u16), ..c }, 8)),
            0xf3 => Some((Cpu { instructions_to_di: 1, ..c }, 4)),
            0xf5 => Some((Cpu { sp: w_sub(c.sp, 2), ..c }, 16)),
            0xf6 => {
                let rf = spec_or(c.a, b.bus_read(c.pc));
                Some((Cpu { a: rf.0, f: rf.1, pc: w_add(c.pc, 1), ..c }, 8))
            }
            0xf8 => {
                // Load HL with the stack pointer plus a zero-extended
                // immediate; the flags are unaffected.
                let v = w_add(c.sp, b.bus_read(c.pc) as u16);
                Some((Cpu { h: hi8(v), l: lo8(v), pc: w_add(c.pc, 1), ..c }, 12))
            }
            0xf9 => Some((Cpu { sp: hl, ..c }, 8)),
            0xfa => Some((
                Cpu {
                    a: b.bus_read(hw(b.bus_read(w_add(c.pc, 1)), b.bus_read(c.pc))),
                    pc: w_add(c.pc, 2),
                    ..c
                },
                16,
            )),
            0xfe => {
                let rf = spec_subc(c.a, b.bus_read(c.pc), false);
                Some((Cpu { f: rf.1, pc: w_add(c.pc, 1), ..c }, 8))
            }
            _ => None,
        }
    }
}

/// The bytes one instruction writes to the bus, as a relation between the
/// bus before and after.  `c` and `b` are as in [`spec_instr`].
pub open spec fn spec_instr_bus<B: Bus>(c: Cpu, b: B, op: u8, post: B) -> bool {
    let hl = hw(c.h, c.l);
    if 0x40 <= op && op <= 0x7f && op != 0x76 {
        if (op >> 3) & 7 == 6 && op & 7 != 6 {
            b.bus_write(hl, reg8(c, op & 7), &post)
        } else {
            post == b
        }
    } else {
        match op {
            0x02 => b.bus_write(hw(c.b, c.c), c.a, &post),
            0x12 => b.bus_write(hw(c.d, c.e), c.a, &post),
            0x22 | 0x32 => b.bus_write(hl, c.a, &post),
            0x34 => b.bus_write(hl, spec_inc(b.bus_read(hl), c.f).0, &post),
            0x35 => b.bus_write(hl, spec_dec(b.bus_read(hl), c.f).0, &post),
            0x36 => b.bus_write(hl, b.bus_read(c.pc), &post),
            0x08 => {
                let a = hw(b.bus_read(w_add(c.pc, 1)), b.bus_read(c.pc));
                spec_write2(b, a, lo8(c.sp), w_add(a, 1), hi8(c.sp), post)
            }
            0xc5 => spec_push(b, c.sp, hw(c.b, c.c), post),
            0xd5 => spec_push(b, c.sp, hw(c.d, c.e), post),
            0xe5 => spec_push(b, c.sp, hw(c.h, c.l), post),
            0xf5 => spec_push(b, c.sp, hw(c.a, flags_to_byte(c.f)), post),
            0xcd => spec_push(b, c.sp, w_add(c.pc, 2), post),
            0xe0 => b.bus_write((0xff00 + b.bus_read(c.pc)) as u16, c.a, &post),
            0xe2 => b.bus_write((0xff00 + c.c) as u16, c.a, &post),
            0xea => b.bus_write(hw(b.bus_read(w_add(c.pc, 1)), b.bus_read(c.pc)), c.a, &post),
            0xcb => {
                if b.bus_read(c.pc) == 0x36 {
                    b.bus_write(hl, spec_swap(b.bus_read(hl), c.f).0, &post)
                } else {
                    post == b
                }
            }
            _ => post == b,
        }
    }
}

/// A push writes the high byte at one below the stack pointer, then the
/// low byte at two below; the caller lowers the stack pointer by two.
pub open spec fn spec_push<B: Bus>(b: B, sp: u16, v: u16, post: B) -> bool {
    spec_write2(b, w_sub(sp, 1), hi8(v), w_sub(sp, 2), lo8(v), post)
}

/// The end-of-instruction countdown for the delayed interrupt-disable:
/// when armed it ticks down once, and master enable drops when it reaches
/// zero.
pub open spec fn spec_di_tick(c: Cpu) -> Cpu {
    if c.instructions_to_di > 0 {
        let n = (c.instructions_to_di - 1) as u8;
        Cpu {
            instructions_to_di: n,
            interrupts_enabled: if n == 0 { false } else { c.interrupts_enabled },
            ..c
        }
    } else {
        c
    }
}

/// The register-and-cycle effect of one whole processor step: fetch the
/// opcode at the program counter, execute it, and run the disable
/// countdown.  `None` is the fatal undefined-opcode case.
pub open spec fn spec_step<B: Bus>(c: Cpu, b: B) -> Option<(Cpu, u16)> {
    let op = b.bus_read(c.pc);
    let c1 = Cpu { pc: w_add(c.pc, 1), ..c };
    match spec_instr(c1, b, op) {
        Some((c2, cyc)) => Some((spec_di_tick(c2), cyc)),
        None => None,
    }
}

/// The bus writes of one whole processor step.
pub open spec fn spec_step_bus<B: Bus>(c: Cpu, b: B, post: B) -> bool {
    let op = b.bus_read(c.pc);
    let c1 = Cpu { pc: w_add(c.pc, 1), ..c };
    spec_instr_bus(c1, b, op, post)
}

/// The processor state a faulting step leaves behind: the program counter
/// has passed the opcode, and the extension byte as well when the fault is
/// in the extended space.
pub open spec fn spec_fault_cpu<B: Bus>(c: Cpu, b: B) -> Cpu {
    if b.bus_read(c.pc) == 0xcb {
        Cpu { pc: w_add(c.pc, 2), ..c }
    } else {
        Cpu { pc: w_add(c.pc, 1), ..c }
    }
}

/// Which fault a faulting step reports.
pub open spec fn spec_fault_code<B: Bus>(c: Cpu, b: B) -> StepFault {
    let op = b.bus_read(c.pc);
    if op == 0xcb {
        StepFault::UndefinedExtended(b.bus_read(w_add(c.pc, 1)))
    } else {
        StepFault::Undefined(op)
    }
}

// ---------------------------------------------------------------------------
// The executable processor
// ---------------------------------------------------------------------------

impl Cpu {
    /// The cold-boot register image: program counter at the cartridge
    /// entry point, stack pointer at the top of high RAM, interrupts
    /// enabled.
    pub fn new() -> (r: Cpu)
        ensures
            r == (Cpu {
                a: 0u8,
                f: Flags { z: false, n: false, h: false, c: false },
                b: 0u8,
                c: 0u8,
                d: 0u8,
                e: 0u8,
                h: 0u8,
                l: 0u8,
                sp: 0xfffeu16,
                pc: 0x100u16,
                instructions_to_di: 0u8,
                interrupts_enabled: true,
            }),
    {
        Cpu {
            a: 0,
            f: Flags { z: false, n: false, h: false, c: false },
            b: 0,
            c: 0,
            d: 0,
            e: 0,
            h: 0,
            l: 0,
            sp: 0xfffe,
            pc: 0x100,
            instructions_to_di: 0,
            interrupts_enabled: true,
        }
    }

    /// The BC register pair.
    pub fn bc(&self) -> (r: u16)
        ensures
            r == hw(self.b, self.c),
    {
        (self.b as u16) * 256 + (self.c as u16)
    }

    /// The DE register pair.
    pub fn de(&self) -> (r: u16)
        ensures
            r == hw(self.d, self.e),
    {
        (self.d as u16) * 256 + (self.e as u16)
    }

    /// The HL register pair.
    pub fn hl(&self) -> (r: u16)
        ensures
            r == hw(self.h, self.l),
    {
        (self.h as u16) * 256 + (self.l as u16)
    }

    /// The AF register pair: the accumulator over the encoded flags.
    pub fn af(&self) -> (r: u16)
        ensures
            r == hw(self.a, flags_to_byte(self.f)),
    {
        (self.a as u16) * 256 + (flags_byte(self.f) as u16)
    }

    /// Sets the BC register pair.
    pub fn set_bc(&mut self, val: u16)
        ensures
            *final(self) == (Cpu { b: hi8(val), c: lo8(val), ..*old(self) }),
    {
        self.b = (val / 256) as u8;
        self.c = (val % 256) as u8;
    }

    /// Sets the DE register pair.
    pub fn set_de(&mut self, val: u16)
        ensures
            *final(self) == (Cpu { d: hi8(val), e: lo8(val), ..*old(self) }),
    {
        self.d = (val / 256) as u8;
        self.e = (val % 256) as u8;
    }

    /// Sets the HL register pair.
    pub fn set_hl(&mut self, val: u16)
        ensures
            *final(self) == (Cpu { h: hi8(val), l: lo8(val), ..*old(self) }),
    {
        self.h = (val / 256) as u8;
        self.l = (val % 256) as u8;
    }

    fn get_reg8(&self, i: u8) -> (r: u8)
        requires
            i < 8,
            i != 6,
        ensures
            r == reg8(*self, i),
    {
        if i == 0 {
            self.b
        } else if i == 1 {
            self.c
        } else if i == 2 {
            self.d
        } else if i == 3 {
            self.e
        } else if i == 4 {
            self.h
        } else if i == 5 {
            self.l
        } else {
            self.a
        }
    }

    fn put_reg8(&mut self, i: u8, v: u8)
        requires
            i < 8,
            i != 6,
        ensures
            *final(self) == set_reg8(*old(self), i, v),
    {
        if i == 0 {
            self.b = v;
        } else if i == 1 {
            self.c = v;
        } else if i == 2 {
            self.d = v;
        } else if i == 3 {
            self.e = v;
        } else if i == 4 {
            self.h = v;
        } else if i == 5 {
            self.l = v;
        } else {
            self.a = v;
        }
    }

    fn read_pc_byte<B: Bus>(&mut self, ic: &B) -> (r: u8)
        requires
            ic.wf(),
        ensures
            r == ic.bus_read(old(self).pc),
            *final(self) == (Cpu { pc: w_add(old(self).pc, 1), ..*old(self) }),
    {
        let val = ic.read_byte(self.pc);
        self.pc = self.pc.wrapping_add(1);
        val
    }

    fn push_byte<B: Bus>(&mut self, ic: &mut B, val: u8)
        requires
            old(ic).wf(),
        ensures
            *final(self) == (Cpu { sp: w_sub(old(self).sp, 1), ..*old(self) }),
            old(ic).bus_write(w_sub(old(self).sp, 1), val, final(ic)),
            final(ic).wf(),
    {
        self.sp = self.sp.wrapping_sub(1);
        ic.write_byte(self.sp, val);
    }

    fn pop_byte<B: Bus>(&mut self, ic: &B) -> (r: u8)
        requires
            ic.wf(),
        ensures
            r == ic.bus_read(old(self).sp),
            *final(self) == (Cpu { sp: w_add(old(self).sp, 1), ..*old(self) }),
    {
        let val = ic.read_byte(self.sp);
        self.sp = self.sp.wrapping_add(1);
        val
    }

    fn addc(&mut self, val: u8, carry: bool) -> (r: u8)
        ensures
            r == spec_addc(old(self).a, val, carry).0,
            *final(self) == (Cpu { f: spec_addc(old(self).a, val, carry).1, ..*old(self) }),
    {
        let ci: u8 = if carry { 1 } else { 0 };
        let sum: u16 = self.a as u16 + val as u16 + ci as u16;
        let r: u8 = if sum > 0xff { (sum - 0x100) as u8 } else { sum as u8 };

        self.f.z = r == 0;
        self.f.n = false;
        self.f.h = (self.a % 16) + (val % 16) + ci > 0xf;
        self.f.c = sum > 0xff;

        r
    }

    fn subc(&mut self, val: u8, carry: bool) -> (r: u8)
        ensures
            r == spec_subc(old(self).a, val, carry).0,
            *final(self) == (Cpu { f: spec_subc(old(self).a, val, carry).1, ..*old(self) }),
    {
        let ci: u8 = if carry { 1 } else { 0 };
        let diff: u16 = 0x100 + self.a as u16 - val as u16 - ci as u16;
        let r: u8 = if diff >= 0x100 { (diff - 0x100) as u8 } else { diff as u8 };

        self.f.z = r == 0;
        self.f.n = true;
        self.f.h = (val % 16) + ci > self.a % 16;
        self.f.c = (self.a as u16) < val as u16 + ci as u16;

        r
    }

    fn and(&mut self, val: u8) -> (r: u8)
        ensures
            r == spec_and(old(self).a, val).0,
            *final(self) == (Cpu { f: spec_and(old(self).a, val).1, ..*old(self) }),
    {
        let r = self.a & val;

        self.f.z = r == 0;
        self.f.n = false;
        self.f.h = true;
        self.f.c = false;

        r
    }

    fn or(&mut self, val: u8) -> (r: u8)
        ensures
            r == spec_or(old(self).a, val).0,
            *final(self) == (Cpu { f: spec_or(old(self).a, val).1, ..*old(self) }),
    {
        let r = self.a | val;

        self.f.z = r == 0;
        self.f.n = false;
        self.f.h = false;
        self.f.c = false;

        r
    }

    fn xor(&mut self, val: u8) -> (r: u8)
        ensures
            r == spec_xor(old(self).a, val).0,
            *final(self) == (Cpu { f: spec_xor(old(self).a, val).1, ..*old(self) }),
    {
        let r = self.a ^ val;

        self.f.z = r == 0;
        self.f.n = false;
        self.f.h = false;
        self.f.c = false;

        r
    }

    fn inc(&mut self, val: u8) -> (r: u8)
        ensures
            r == spec_inc(val, old(self).f).0,
            *final(self) == (Cpu { f: spec_inc(val, old(self).f).1, ..*old(self) }),
    {
        let r = val.wrapping_add(1);

        self.f.z = r == 0;
        self.f.n = false;
        self.f.h = r % 16 == 0;

        r
    }

    fn dec(&mut self, val: u8) -> (r: u8)
        ensures
            r == spec_dec(val, old(self).f).0,
            *final(self) == (Cpu { f: spec_dec(val, old(self).f).1, ..*old(self) }),
    {
        let r = val.wrapping_sub(1);

        self.f.z = r == 0;
        self.f.n = true;
        self.f.h = r % 16 == 0xf;

        r
    }

    fn swap(&mut self, val: u8) -> (r: u8)
        ensures
            r == spec_swap(val, old(self).f).0,
            *final(self) == (Cpu { f: spec_swap(val, old(self).f).1, ..*old(self) }),
    {
        self.f.z = val == 0;

        ((val & 0x0f) << 4) | ((val & 0xf0) >> 4)
    }

    fn add16(&mut self, lhs: u16, rhs: u16) -> (r: u16)
        ensures
            r == spec_add16(lhs, rhs, old(self).f).0,
            *final(self) == (Cpu { f: spec_add16(lhs, rhs, old(self).f).1, ..*old(self) }),
    {
        let ret = lhs.wrapping_add(rhs);

        self.f.n = false;
        self.f.h = (lhs % 0x1000) + (rhs % 0x1000) > 0x0fff;
        self.f.c = lhs > 0xffff - rhs;

        ret
    }

    fn disable_interrupts(&mut self)
        ensures
            *final(self) == (Cpu { interrupts_enabled: false, ..*old(self) }),
    {
        self.interrupts_enabled = false;
    }
}

/// The byte encoding of the flags, executably.
pub fn flags_byte(f: Flags) -> (r: u8)
    ensures
        r == flags_to_byte(f),
{
    (if f.c { 0x10u8 } else { 0u8 }) | (if f.h { 0x20u8 } else { 0u8 })
        | (if f.n { 0x40u8 } else { 0u8 }) | (if f.z { 0x80u8 } else { 0u8 })
}

/// The flags decoded from a byte, executably.
pub fn flags_of_byte(v: u8) -> (r: Flags)
    ensures
        r == flags_from_byte(v),
{
    Flags { z: v & 0x80 != 0, n: v & 0x40 != 0, h: v & 0x20 != 0, c: v & 0x10 != 0 }
}

} // verus!

verus! {

// Decode facts for the two uniform opcode blocks, needed to call the
// register-file helpers.
proof fn lemma_ld_decode(op: u8)
    by (bit_vector)
    requires
        0x40 <= op <= 0x7f,
        op != 0x76,
    ensures
        (op >> 3) & 7 < 8,
        op & 7 < 8,
        !((op >> 3) & 7 == 6 && op & 7 == 6),
{
}

proof fn lemma_alu_decode(op: u8)
    by (bit_vector)
    requires
        0x80 <= op <= 0xbf,
    ensures
        (op >> 3) & 7 < 8,
        op & 7 < 8,
{
}

proof fn lemma_cb_decode(op: u8)
    by (bit_vector)
    requires
        0x30 <= op <= 0x37,
        op != 0x36,
    ensures
        op & 7 < 8,
        op & 7 != 6,
{
}

/// The processor state an undefined instruction leaves behind: only the
/// escape opcode has consumed an extension byte by the time the fault is
/// seen.
pub open spec fn spec_instr_fault_cpu<B: Bus>(c: Cpu, b: B, op: u8) -> Cpu {
    if op == 0xcb {
        Cpu { pc: w_add(c.pc, 1), ..c }
    } else {
        c
    }
}

/// Which fault an undefined instruction reports.
pub open spec fn spec_instr_fault_code<B: Bus>(c: Cpu, b: B, op: u8) -> StepFault {
    if op == 0xcb {
        StepFault::UndefinedExtended(b.bus_read(c.pc))
    } else {
        StepFault::Undefined(op)
    }
}

impl Cpu {
    /// The register-to-register load block, 0x40 through 0x7f.
    #[verifier::spinoff_prover]
    #[verifier::rlimit(100)]
    fn exec_ld<B: Bus>(&mut self, interconnect: &mut B, op: u8) -> (r: Result<u16, StepFault>)
        requires
            old(interconnect).wf(),
            0x40 <= op <= 0x7f,
            op != 0x76,
        ensures
            final(interconnect).wf(),
            (spec_instr(*old(self), *old(interconnect), op) matches Some((c2, cyc)) ==> {
                &&& r == Ok::<u16, StepFault>(cyc)
                &&& *final(self) == c2
                &&& spec_instr_bus(*old(self), *old(interconnect), op, *final(interconnect))
            }),
            (spec_instr(*old(self), *old(interconnect), op) is None ==> {
                &&& r == Err::<u16, StepFault>(spec_instr_fault_code(*old(self), *old(interconnect), op))
                &&& *final(self) == spec_instr_fault_cpu(*old(self), *old(interconnect), op)
                &&& *final(interconnect) == *old(interconnect)
            }),
    {
        let dst = (op >> 3) & 0x7;
        let src = op & 0x7;
        proof {
            lemma_ld_decode(op);
        }
        if src == 6 {
            let addr = self.hl();
            let v = interconnect.read_byte(addr);
            self.put_reg8(dst, v);
            Ok(8)
        } else if dst == 6 {
            let addr = self.hl();
            let v = self.get_reg8(src);
            interconnect.write_byte(addr, v);
            Ok(8)
        } else {
            let v = self.get_reg8(src);
            self.put_reg8(dst, v);
            Ok(4)
        }
    }

    /// The arithmetic/logic block, 0x80 through 0xbf.
    #[verifier::spinoff_prover]
    #[verifier::rlimit(100)]
    fn exec_alu<B: Bus>(&mut self, interconnect: &mut B, op: u8) -> (r: Result<u16, StepFault>)
        requires
            old(interconnect).wf(),
            0x80 <= op <= 0xbf,
        ensures
            final(interconnect).wf(),
            (spec_instr(*old(self), *old(interconnect), op) matches Some((c2, cyc)) ==> {
                &&& r == Ok::<u16, StepFault>(cyc)
                &&& *final(self) == c2
                &&& spec_instr_bus(*old(self), *old(interconnect), op, *final(interconnect))
            }),
            (spec_instr(*old(self), *old(interconnect), op) is None ==> {
                &&& r == Err::<u16, StepFault>(spec_instr_fault_code(*old(self), *old(interconnect), op))
                &&& *final(self) == spec_instr_fault_cpu(*old(self), *old(interconnect), op)
                &&& *final(interconnect) == *old(interconnect)
            }),
    {
        let kind = (op >> 3) & 0x7;
        let src = op & 0x7;
        proof {
            lemma_alu_decode(op);
        }
        let v = if src == 6 {
            let addr = self.hl();
            interconnect.read_byte(addr)
        } else {
            self.get_reg8(src)
        };
        let cycles: u16 = if src == 6 {
            8
        } else {
            4
        };
        if kind == 0 {
            let r2 = self.addc(v, false);
            self.a = r2;
        } else if kind == 1 {
            let cy = self.f.c;
            let r2 = self.addc(v, cy);
            self.a = r2;
        } else if kind == 2 {
            let r2 = self.subc(v, false);
            self.a = r2;
        } else if kind == 3 {
            let cy = self.f.c;
            let r2 = self.subc(v, cy);
            self.a = r2;
        } else if kind == 4 {
            let r2 = self.and(v);
            self.a = r2;
        } else if kind == 5 {
            let r2 = self.xor(v);
            self.a = r2;
        } else if kind == 6 {
            let r2 = self.or(v);
            self.a = r2;
        } else {
            let _ = self.subc(v, false);
        }
        Ok(cycles)
    }
}

} // verus!

verus! {

impl Cpu {
    /// Instructions 0x00 through 0x1f.
    #[verifier::spinoff_prover]
    #[verifier::rlimit(100)]
    fn exec_lo0<B: Bus>(&mut self, interconnect: &mut B, op: u8) -> (r: Result<u16, StepFault>)
        requires
            old(interconnect).wf(),
            op <= 0x1f,
        ensures
            final(interconnect).wf(),
            (spec_instr(*old(self), *old(interconnect), op) matches Some((c2, cyc)) ==> {
                &&& r == Ok::<u16, StepFault>(cyc)
                &&& *final(self) == c2
                &&& spec_instr_bus(*old(self), *old(interconnect), op, *final(interconnect))
            }),
            (spec_instr(*old(self), *old(interconnect), op) is None ==> {
                &&& r == Err::<u16, StepFault>(spec_instr_fault_code(*old(self), *old(interconnect), op))
                &&& *final(self) == spec_instr_fault_cpu(*old(self), *old(interconnect), op)
                &&& *final(interconnect) == *old(interconnect)
            }),
    {
        match op {
            0x00 => Ok(4),
            0x01 => {
                let lsb = self.read_pc_byte(interconnect);
                let msb = self.read_pc_byte(interconnect);
                self.b = msb;
                self.c = lsb;
                Ok(12)
            }
            0x02 => {
                let addr = self.bc();
                interconnect.write_byte(addr, self.a);
                Ok(8)
            }
            0x03 => {
                let bc = self.bc().wrapping_add(1);
                self.set_bc(bc);
                Ok(8)
            }
            0x04 => {
                let val = self.b;
                self.b = self.inc(val);
                Ok(4)
            }
            0x05 => {
                let val = self.b;
                self.b = self.dec(val);
                Ok(4)
            }
            0x06 => {
                self.b = self.read_pc_byte(interconnect);
                Ok(8)
            }
            0x08 => {
                let lsb = self.read_pc_byte(interconnect);
                let msb = self.read_pc_byte(interconnect);
                let addr = (msb as u16) * 256 + (lsb as u16);
                interconnect.write_byte(addr, (self.sp % 256) as u8);
                interconnect.write_byte(addr.wrapping_add(1), (self.sp / 256) as u8);
                Ok(20)
            }
            0x09 => {
                let (hl, bc) = (self.hl(), self.bc());
                let val = self.add16(hl, bc);
                self.set_hl(val);
                Ok(8)
            }
            0x0a => {
                let addr = self.bc();
                self.a = interconnect.read_byte(addr);
                Ok(8)
            }
            0x0b => {
                let bc = self.bc().wrapping_sub(1);
                self.set_bc(bc);
                Ok(8)
            }
            0x0c => {
                let val = self.c;
                self.c = self.inc(val);
                Ok(4)
            }
            0x0d => {
                let val = self.c;
                self.c = self.dec(val);
                Ok(4)
            }
            0x0e => {
                self.c = self.read_pc_byte(interconnect);
                Ok(8)
            }
            0x11 => {
                let lsb = self.read_pc_byte(interconnect);
                let msb = self.read_pc_byte(interconnect);
                self.d = msb;
                self.e = lsb;
                Ok(12)
            }
            0x12 => {
                let addr = self.de();
                interconnect.write_byte(addr, self.a);
                Ok(8)
            }
            0x13 => {
                let de = self.de().wrapping_add(1);
                self.set_de(de);
                Ok(8)
            }
            0x14 => {
                let val = self.d;
                self.d = self.inc(val);
                Ok(4)
            }
            0x15 => {
                let val = self.d;
                self.d = self.dec(val);
                Ok(4)
            }
            0x16 => {
                self.d = self.read_pc_byte(interconnect);
                Ok(8)
            }
            0x18 => {
                let n = self.read_pc_byte(interconnect);
                let off: u16 = if n < 0x80 {
                    n as u16
                } else {
                    (n as u16) + 0xff00
                };
                self.pc = self.pc.wrapping_add(off);
                Ok(12)
            }
            0x19 => {
                let (hl, de) = (self.hl(), self.de());
                let val = self.add16(hl, de);
                self.set_hl(val);
                Ok(8)
            }
            0x1a => {
                let addr = self.de();
                self.a = interconnect.read_byte(addr);
                Ok(8)
            }
            0x1b => {
                let de = self.de().wrapping_sub(1);
                self.set_de(de);
                Ok(8)
            }
            0x1c => {
                let val = self.e;
                self.e = self.inc(val);
                Ok(4)
            }
            0x1d => {
                let val = self.e;
                self.e = self.dec(val);
                Ok(4)
            }
            0x1e => {
                self.e = self.read_pc_byte(interconnect);
                Ok(8)
            }
            _ => Err(StepFault::Undefined(op)),
        }
    }

    /// Instructions 0x20 through 0x3f.
    #[verifier::spinoff_prover]
    #[verifier::rlimit(100)]
    fn exec_lo2<B: Bus>(&mut self, interconnect: &mut B, op: u8) -> (r: Result<u16, StepFault>)
        requires
            old(interconnect).wf(),
            0x20 <= op <= 0x3f,
        ensures
            final(interconnect).wf(),
            (spec_instr(*old(self), *old(interconnect), op) matches Some((c2, cyc)) ==> {
                &&& r == Ok::<u16, StepFault>(cyc)
                &&& *final(self) == c2
                &&& spec_instr_bus(*old(self), *old(interconnect), op, *final(interconnect))
            }),
            (spec_instr(*old(self), *old(interconnect), op) is None ==> {
                &&& r == Err::<u16, StepFault>(spec_instr_fault_code(*old(self), *old(interconnect), op))
                &&& *final(self) == spec_instr_fault_cpu(*old(self), *old(interconnect), op)
                &&& *final(interconnect) == *old(interconnect)
            }),
    {
        match op {
            0x20 | 0x28 | 0x30 | 0x38 => {
                let n = self.read_pc_byte(interconnect);
                let cond = if op == 0x20 {
                    !self.f.z
                } else if op == 0x28 {
                    self.f.z
                } else if op == 0x30 {
                    !self.f.c
                } else {
                    self.f.c
                };
                if cond {
                    let off: u16 = if n < 0x80 {
                        n as u16
                    } else {
                        (n as u16) + 0xff00
                    };
                    self.pc = self.pc.wrapping_add(off);
                    Ok(12)
                } else {
                    Ok(8)
                }
            }
            0x21 => {
                let lsb = self.read_pc_byte(interconnect);
                let msb = self.read_pc_byte(interconnect);
                self.h = msb;
                self.l = lsb;
                Ok(12)
            }
            0x22 => {
                let addr = self.hl();
                interconnect.write_byte(addr, self.a);
                let val = addr.wrapping_add(1);
                self.h = (val / 256) as u8;
                self.l = (val % 256) as u8;
                Ok(8)
            }
            0x23 => {
                let hl = self.hl().wrapping_add(1);
                self.set_hl(hl);
                Ok(8)
            }
            0x24 => {
                let val = self.h;
                self.h = self.inc(val);
                Ok(4)
            }
            0x25 => {
                let val = self.h;
                self.h = self.dec(val);
                Ok(4)
            }
            0x26 => {
                self.h = self.read_pc_byte(interconnect);
                Ok(8)
            }
            0x29 => {
                let hl = self.hl();
                let val = self.add16(hl, hl);
                self.set_hl(val);
                Ok(8)
            }
            0x2a => {
                let addr = self.hl();
                self.a = interconnect.read_byte(addr);
                let val = addr.wrapping_add(1);
                self.h = (val / 256) as u8;
                self.l = (val % 256) as u8;
                Ok(8)
            }
            0x2b => {
                let hl = self.hl().wrapping_sub(1);
                self.set_hl(hl);
                Ok(8)
            }
            0x2c => {
                let val = self.l;
                self.l = self.inc(val);
                Ok(4)
            }
            0x2d => {
                let val = self.l;
                self.l = self.dec(val);
                Ok(4)
            }
            0x2e => {
                self.l = self.read_pc_byte(interconnect);
                Ok(8)
            }
            0x2f => {
                self.a = !self.a;
                self.f.n = true;
                self.f.h = true;
                Ok(4)
            }
            0x31 => {
                let lsb = self.read_pc_byte(interconnect);
                let msb = self.read_pc_byte(interconnect);
                self.sp = (msb as u16) * 256 + (lsb as u16);
                Ok(12)
            }
            0x32 => {
                let addr = self.hl();
                interconnect.write_byte(addr, self.a);
                let val = addr.wrapping_sub(1);
                self.h = (val / 256) as u8;
                self.l = (val % 256) as u8;
                Ok(8)
            }
            0x33 => {
                self.sp = self.sp.wrapping_add(1);
                Ok(8)
            }
            0x34 => {
                let addr = self.hl();
                let val = interconnect.read_byte(addr);
                let r2 = self.inc(val);
                interconnect.write_byte(addr, r2);
                Ok(12)
            }
            0x35 => {
                let addr = self.hl();
                let val = interconnect.read_byte(addr);
                let r2 = self.dec(val);
                interconnect.write_byte(addr, r2);
                Ok(12)
            }
            0x36 => {
                let val = self.read_pc_byte(interconnect);
                let addr = self.hl();
                interconnect.write_byte(addr, val);
                Ok(12)
            }
            0x37 => {
                self.f.n = false;
                self.f.h = false;
                self.f.c = true;
                Ok(4)
            }
            0x39 => {
                let (hl, sp) = (self.hl(), self.sp);
                let val = self.add16(hl, sp);
                self.set_hl(val);
                Ok(8)
            }
            0x3a => {
                let addr = self.hl();
                self.a = interconnect.read_byte(addr);
                let val = addr.wrapping_sub(1);
                self.h = (val / 256) as u8;
                self.l = (val % 256) as u8;
                Ok(8)
            }
            0x3b => {
                self.sp = self.sp.wrapping_sub(1);
                Ok(8)
            }
            0x3c => {
                let val = self.a;
                self.a = self.inc(val);
                Ok(4)
            }
            0x3d => {
                let val = self.a;
                self.a = self.dec(val);
                Ok(4)
            }
            0x3e => {
                self.a = self.read_pc_byte(interconnect);
                Ok(8)
            }
            0x3f => {
                self.f.n = false;
                self.f.h = false;
                self.f.c = !self.f.c;
                Ok(4)
            }
            _ => Err(StepFault::Undefined(op)),
        }
    }
}

} // verus!

verus! {

impl Cpu {
    /// Instructions 0xc0 through 0xdf, the escape opcode included.
    #[verifier::spinoff_prover]
    #[verifier::rlimit(100)]
    fn exec_hic<B: Bus>(&mut self, interconnect: &mut B, op: u8) -> (r: Result<u16, StepFault>)
        requires
            old(interconnect).wf(),
            0xc0 <= op <= 0xdf,
        ensures
            final(interconnect).wf(),
            (spec_instr(*old(self), *old(interconnect), op) matches Some((c2, cyc)) ==> {
                &&& r == Ok::<u16, StepFault>(cyc)
                &&& *final(self) == c2
                &&& spec_instr_bus(*old(self), *old(interconnect), op, *final(interconnect))
            }),
            (spec_instr(*old(self), *old(interconnect), op) is None ==> {
                &&& r == Err::<u16, StepFault>(spec_instr_fault_code(*old(self), *old(interconnect), op))
                &&& *final(self) == spec_instr_fault_cpu(*old(self), *old(interconnect), op)
                &&& *final(interconnect) == *old(interconnect)
            }),
    {
        match op {
            0xc1 => {
                let c = self.pop_byte(interconnect);
                let b = self.pop_byte(interconnect);
                self.b = b;
                self.c = c;
                Ok(12)
            }
            0xc3 => {
                let lsb = self.read_pc_byte(interconnect);
                let msb = self.read_pc_byte(interconnect);
                self.pc = (msb as u16) * 256 + (lsb as u16);
                Ok(16)
            }
            0xc5 => {
                let hi = self.b;
                let lo = self.c;
                proof {
                    crate::nums::lemma_hw_parts(hi, lo);
                }
                self.push_byte(interconnect, hi);
                self.push_byte(interconnect, lo);
                Ok(16)
            }
            0xc6 => {
                let n = self.read_pc_byte(interconnect);
                self.a = self.addc(n, false);
                Ok(8)
            }
            0xc9 => {
                let lo = self.pop_byte(interconnect);
                let hi = self.pop_byte(interconnect);
                self.pc = (hi as u16) * 256 + (lo as u16);
                Ok(16)
            }
            0xcb => {
                let sub = self.read_pc_byte(interconnect);
                if sub >= 0x30 && sub <= 0x37 {
                    if sub == 0x36 {
                        let addr = self.hl();
                        let val = interconnect.read_byte(addr);
                        let r2 = self.swap(val);
                        interconnect.write_byte(addr, r2);
                        Ok(16)
                    } else {
                        proof {
                            lemma_cb_decode(sub);
                        }
                        let i = sub & 0x7;
                        let val = self.get_reg8(i);
                        let r2 = self.swap(val);
                        self.put_reg8(i, r2);
                        Ok(8)
                    }
                } else {
                    Err(StepFault::UndefinedExtended(sub))
                }
            }
            0xcd => {
                let lsb = self.read_pc_byte(interconnect);
                let msb = self.read_pc_byte(interconnect);
                let addr = (msb as u16) * 256 + (lsb as u16);
                let pc = self.pc;
                self.push_byte(interconnect, (pc / 256) as u8);
                self.push_byte(interconnect, (pc % 256) as u8);
                self.pc = addr;
                Ok(24)
            }
            0xce => {
                let n = self.read_pc_byte(interconnect);
                let carry = self.f.c;
                self.a = self.addc(n, carry);
                Ok(8)
            }
            0xd1 => {
                let e = self.pop_byte(interconnect);
                let d = self.pop_byte(interconnect);
                self.d = d;
                self.e = e;
                Ok(12)
            }
            0xd5 => {
                let hi = self.d;
                let lo = self.e;
                proof {
                    crate::nums::lemma_hw_parts(hi, lo);
                }
                self.push_byte(interconnect, hi);
                self.push_byte(interconnect, lo);
                Ok(16)
            }
            0xd6 => {
                let n = self.read_pc_byte(interconnect);
                self.a = self.subc(n, false);
                Ok(8)
            }
            0xde => {
                let n = self.read_pc_byte(interconnect);
                let carry = self.f.c;
                self.a = self.subc(n, carry);
                Ok(8)
            }
            _ => Err(StepFault::Undefined(op)),
        }
    }

    /// Instructions 0xe0 through 0xff.
    #[verifier::spinoff_prover]
    #[verifier::rlimit(100)]
    fn exec_hie<B: Bus>(&mut self, interconnect: &mut B, op: u8) -> (r: Result<u16, StepFault>)
        requires
            old(interconnect).wf(),
            0xe0 <= op,
        ensures
            final(interconnect).wf(),
            (spec_instr(*old(self), *old(interconnect), op) matches Some((c2, cyc)) ==> {
                &&& r == Ok::<u16, StepFault>(cyc)
                &&& *final(self) == c2
                &&& spec_instr_bus(*old(self), *old(interconnect), op, *final(interconnect))
            }),
            (spec_instr(*old(self), *old(interconnect), op) is None ==> {
                &&& r == Err::<u16, StepFault>(spec_instr_fault_code(*old(self), *old(interconnect), op))
                &&& *final(self) == spec_instr_fault_cpu(*old(self), *old(interconnect), op)
                &&& *final(interconnect) == *old(interconnect)
            }),
    {
        match op {
            0xe0 => {
                let n = self.read_pc_byte(interconnect);
                let addr = 0xff00 + (n as u16);
                interconnect.write_byte(addr, self.a);
                Ok(12)
            }
            0xe1 => {
                let l = self.pop_byte(interconnect);
                let h = self.pop_byte(interconnect);
                self.h = h;
                self.l = l;
                Ok(12)
            }
            0xe2 => {
                let addr = 0xff00 + (self.c as u16);
                interconnect.write_byte(addr, self.a);
                Ok(8)
            }
            0xe5 => {
                let hi = self.h;
                let lo = self.l;
                proof {
                    crate::nums::lemma_hw_parts(hi, lo);
                }
                self.push_byte(interconnect, hi);
                self.push_byte(interconnect, lo);
                Ok(16)
            }
            0xe6 => {
                let n = self.read_pc_byte(interconnect);
                self.a = self.and(n);
                Ok(8)
            }
            0xe8 => {
                let n = self.read_pc_byte(interconnect);
                let off: u16 = if n < 0x80 {
                    n as u16
                } else {
                    (n as u16) + 0xff00
                };
                let sp = self.sp;
                self.sp = sp.wrapping_add(off);
                self.f.z = false;
                self.f.n = false;
                self.f.h = (sp % 16) + ((n % 16) as u16) > 0xf;
                self.f.c = (sp as u32) + (off as u32) > 0xffff;
                Ok(16)
            }
            0xea => {
                let lsb = self.read_pc_byte(interconnect);
                let msb = self.read_pc_byte(interconnect);
                let addr = (msb as u16) * 256 + (lsb as u16);
                interconnect.write_byte(addr, self.a);
                Ok(16)
            }
            0xee => {
                let n = self.read_pc_byte(interconnect);
                self.a = self.xor(n);
                Ok(8)
            }
            0xf0 => {
                let n = self.read_pc_byte(interconnect);
                let addr = 0xff00 + (n as u16);
                self.a = interconnect.read_byte(addr);
                Ok(12)
            }
            0xf1 => {
                let fv = self.pop_byte(interconnect);
                let av = self.pop_byte(interconnect);
                self.a = av;
                self.f = flags_of_byte(fv);
                Ok(12)
            }
            0xf2 => {
                let addr = 0xff00 + (self.c as u16);
                self.a = interconnect.read_byte(addr);
                Ok(8)
            }
            0xf3 => {
                self.instructions_to_di = 1;
                Ok(4)
            }
            0xf5 => {
                let a = self.a;
                let fb = flags_byte(self.f);
                proof {
                    crate::nums::lemma_hw_parts(a, fb);
                }
                self.push_byte(interconnect, a);
                self.push_byte(interconnect, fb);
                Ok(16)
            }
            0xf6 => {
                let n = self.read_pc_byte(interconnect);
                self.a = self.or(n);
                Ok(8)
            }
            0xf8 => {
                let n = self.read_pc_byte(interconnect);
                let addr = self.sp.wrapping_add(n as u16);
                self.h = (addr / 256) as u8;
                self.l = (addr % 256) as u8;
                Ok(12)
            }
            0xf9 => {
                self.sp = self.hl();
                Ok(8)
            }
            0xfa => {
                let lsb = self.read_pc_byte(interconnect);
                let msb = self.read_pc_byte(interconnect);
                let addr = (msb as u16) * 256 + (lsb as u16);
                self.a = interconnect.read_byte(addr);
                Ok(16)
            }
            0xfe => {
                let n = self.read_pc_byte(interconnect);
                let _ = self.subc(n, false);
                Ok(8)
            }
            _ => Err(StepFault::Undefined(op)),
        }
    }

    /// Performs exactly one instruction against the bus: fetch the opcode
    /// at the program counter, execute its whole effect, run the delayed
    /// interrupt-disable countdown, and return the cycles consumed.  The
    /// new processor state and cycle count are exactly [`spec_step`] of the
    /// old state, and the bytes written to the bus are exactly
    /// [`spec_step_bus`].  An opcode with no defined behaviour is a fatal
    /// fault: the error says which opcode, the bus is untouched, and the
    /// program counter rests just past the undefined fetch.
    #[verifier::rlimit(100)]
    pub fn step<B: Bus>(&mut self, interconnect: &mut B) -> (r: Result<u16, StepFault>)
        requires
            old(interconnect).wf(),
        ensures
            final(interconnect).wf(),
            (spec_step(*old(self), *old(interconnect)) matches Some((c2, cyc)) ==> {
                &&& r == Ok::<u16, StepFault>(cyc)
                &&& *final(self) == c2
                &&& spec_step_bus(*old(self), *old(interconnect), *final(interconnect))
            }),
            (spec_step(*old(self), *old(interconnect)) is None ==> {
                &&& r == Err::<u16, StepFault>(spec_fault_code(*old(self), *old(interconnect)))
                &&& *final(self) == spec_fault_cpu(*old(self), *old(interconnect))
                &&& *final(interconnect) == *old(interconnect)
            }),
    {
        let instr = self.read_pc_byte(interconnect);

        let res = if instr >= 0x40 && instr <= 0x7f && instr != 0x76 {
            self.exec_ld(interconnect, instr)
        } else if instr >= 0x80 && instr <= 0xbf {
            self.exec_alu(interconnect, instr)
        } else if instr <= 0x1f {
            self.exec_lo0(interconnect, instr)
        } else if instr <= 0x3f {
            self.exec_lo2(interconnect, instr)
        } else if instr == 0x76 {
            Err(StepFault::Undefined(instr))
        } else if instr <= 0xdf {
            self.exec_hic(interconnect, instr)
        } else {
            self.exec_hie(interconnect, instr)
        };

        match res {
            Ok(cycle_count) => {
                if self.instructions_to_di > 0 {
                    self.instructions_to_di = self.instructions_to_di - 1;
                    if self.instructions_to_di == 0 {
                        self.disable_interrupts();
                    }
                }
                Ok(cycle_count)
            }
            Err(e) => Err(e),
        }
    }
}

} // verus!
