//! Wrapping 8/16-bit arithmetic and halfword composition used throughout
//! the processor and bus specifications.

use vstd::prelude::*;

verus! {

/// 16-bit addition taken modulo 65536, as the program counter and stack
/// pointer require.
pub open spec fn w_add(a: u16, b: u16) -> u16 {
    if a + b > 0xffff {
        (a + b - 0x10000) as u16
    } else {
        (a + b) as u16
    }
}

/// 16-bit subtraction taken modulo 65536.
pub open spec fn w_sub(a: u16, b: u16) -> u16 {
    if a - b < 0 {
        (a - b + 0x10000) as u16
    } else {
        (a - b) as u16
    }
}

/// 8-bit wrap of a sum in `[0, 0x1ff]` (one addition, possibly with carry-in).
pub open spec fn w8p(x: int) -> u8 {
    if x > 0xff {
        (x - 0x100) as u8
    } else {
        x as u8
    }
}

/// 8-bit wrap of a difference in `[-0x100, 0xff]`.
pub open spec fn w8m(x: int) -> u8 {
    if x < 0 {
        (x + 0x100) as u8
    } else {
        x as u8
    }
}

/// The 16-bit value with high byte `hi` and low byte `lo`.
pub open spec fn hw(hi: u8, lo: u8) -> u16 {
    (hi * 256 + lo) as u16
}

/// The high byte of a 16-bit value.
pub open spec fn hi8(v: u16) -> u8 {
    (v / 256) as u8
}

/// The low byte of a 16-bit value.
pub open spec fn lo8(v: u16) -> u8 {
    (v % 256) as u8
}

/// The 16-bit sign extension of a byte, for relative-jump offsets.
pub open spec fn sign_ext(n: u8) -> u16 {
    if n < 0x80 {
        n as u16
    } else {
        (n + 0xff00) as u16
    }
}

/// Composing a halfword from its parts gives the parts back.
pub proof fn lemma_hw_parts(hi: u8, lo: u8)
    ensures
        hi8(hw(hi, lo)) == hi,
        lo8(hw(hi, lo)) == lo,
{
    let v = hi * 256 + lo;
    assert(v / 256 == hi && v % 256 == lo) by (nonlinear_arith)
        requires
            0 <= hi < 256 && 0 <= lo < 256 && v == hi * 256 + lo,
    ;
}

/// Splitting a halfword and recomposing gives the halfword back.
pub proof fn lemma_hw_recompose(v: u16)
    ensures
        hw(hi8(v), lo8(v)) == v,
{
    assert((v / 256) * 256 + v % 256 == v) by (nonlinear_arith);
    assert(v / 256 <= 255) by (nonlinear_arith);
}

} // verus!
