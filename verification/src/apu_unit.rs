//! The audio channels' building blocks: sweep, duty, length counter,
//! volume envelope, frequency timer, wave storage and noise control.
//! Each is a small bit-field register with an exact encode/decode.

use vstd::prelude::*;
use crate::nums::w8p;

verus! {

/// The frequency-sweep register of the first channel.
#[derive(Clone, Copy)]
pub struct Sweep {
    pub sweep_time: u8,
    pub sweep_increase: bool,
    pub sweep_shift: u8,
}

pub open spec fn spec_sweep_read(s: Sweep) -> u8 {
    0x80u8 | (s.sweep_time << 4) | (if s.sweep_increase { 8u8 } else { 0u8 }) | s.sweep_shift
}

pub open spec fn spec_sweep_write(val: u8) -> Sweep {
    Sweep {
        sweep_time: (val >> 4) & 0x07,
        sweep_increase: (val >> 3) & 0x01 != 0,
        sweep_shift: val & 0x7,
    }
}

impl Sweep {
    pub fn read(&self) -> (r: u8)
        ensures
            r == spec_sweep_read(*self),
    {
        0x80 | (self.sweep_time << 4) | (if self.sweep_increase { 8u8 } else { 0u8 })
            | self.sweep_shift
    }

    pub fn write(&mut self, val: u8)
        ensures
            *final(self) == spec_sweep_write(val),
    {
        self.sweep_time = (val >> 4) & 0x07;
        self.sweep_increase = (val >> 3) & 0x01 != 0;
        self.sweep_shift = val & 0x7;
    }
}

impl Default for Sweep {
    fn default() -> (r: Self)
        ensures
            r == (Sweep { sweep_time: 0u8, sweep_increase: false, sweep_shift: 0u8 }),
    {
        Sweep { sweep_time: 0, sweep_increase: false, sweep_shift: 0 }
    }
}

/// The duty-pattern register of the square channels.
#[derive(Clone, Copy)]
pub struct SquareWave {
    pub duty_pattern: u8,
}

pub open spec fn spec_square_read(s: SquareWave) -> u8 {
    s.duty_pattern << 6
}

pub open spec fn spec_square_write(val: u8) -> SquareWave {
    SquareWave { duty_pattern: (val >> 6) & 0x03 }
}

impl SquareWave {
    pub fn read(&self) -> (r: u8)
        ensures
            r == spec_square_read(*self),
    {
        self.duty_pattern << 6
    }

    pub fn write(&mut self, val: u8)
        ensures
            *final(self) == spec_square_write(val),
    {
        self.duty_pattern = (val >> 6) & 0x03;
    }
}

impl Default for SquareWave {
    fn default() -> (r: Self)
        ensures
            r == (SquareWave { duty_pattern: 0u8 }),
    {
        SquareWave { duty_pattern: 0 }
    }
}

/// A length counter: counts up when clocked, and deactivates its channel
/// on the falling edge of the bit its width selects.
#[derive(Clone, Copy)]
pub struct LengthCounter {
    pub clocked: bool,

    pub length: u8,
    pub bit_length: u8,
    pub last: u8,
    pub active: bool,
}

/// The well-formedness of a length counter: its watched bit lies inside a
/// 16-bit shift.
pub open spec fn length_counter_wf(lc: LengthCounter) -> bool {
    lc.bit_length < 16
}

/// The bit of `length` that `bit_length` selects.
pub open spec fn spec_length_bit(length: u8, bit_length: u8) -> u8 {
    (((length as u16) >> bit_length) & 1) as u8
}

pub open spec fn spec_length_write(lc: LengthCounter, val: u8) -> LengthCounter {
    LengthCounter { length: val, active: true, last: spec_length_bit(val, lc.bit_length), ..lc }
}

/// One length-counter clock: the count advances, and the falling edge of
/// the watched bit deactivates the counter (the boolean reports it).
pub open spec fn spec_length_step(lc: LengthCounter) -> (LengthCounter, bool) {
    if lc.clocked && lc.active {
        let len = w8p(lc.length + 1);
        let next = spec_length_bit(len, lc.bit_length);
        let fired = lc.last == 1 && next == 0;
        (LengthCounter { length: len, last: next, active: !fired, ..lc }, fired)
    } else {
        (lc, false)
    }
}

impl LengthCounter {
    /// A counter watching bit `bit_length`, cleared and inactive.
    pub fn new(bit_length: u8) -> (r: Self)
        requires
            bit_length < 16,
        ensures
            r == (LengthCounter {
                clocked: false,
                length: 0u8,
                bit_length: bit_length,
                last: 0u8,
                active: false,
            }),
    {
        LengthCounter { length: 0, bit_length, last: 0, active: false, clocked: false }
    }

    pub fn write(&mut self, val: u8)
        requires
            length_counter_wf(*old(self)),
        ensures
            *final(self) == spec_length_write(*old(self), val),
    {
        self.length = val;
        self.active = true;
        self.last = (((val as u16) >> self.bit_length) & 0x01) as u8;
    }

    pub fn step(&mut self) -> (fired: bool)
        requires
            length_counter_wf(*old(self)),
        ensures
            *final(self) == spec_length_step(*old(self)).0,
            fired == spec_length_step(*old(self)).1,
    {
        if self.clocked && self.active {
            self.length = self.length.wrapping_add(1);
            let next = (((self.length as u16) >> self.bit_length) & 0x01) as u8;
            let fired = self.last == 1 && next == 0;
            if fired {
                self.active = false;
            }
            self.last = next;
            fired
        } else {
            false
        }
    }

    pub fn active(&self) -> (r: bool)
        ensures
            r == self.active,
    {
        self.active
    }
}

/// The volume-envelope register.
#[derive(Clone, Copy)]
pub struct VolumeEnvelope {
    pub volume: u8,
    pub volume_increase: bool,
    pub volume_delta: u8,
}

pub open spec fn spec_volume_read(v: VolumeEnvelope) -> u8 {
    (v.volume << 4) | (if v.volume_increase { 8u8 } else { 0u8 }) | v.volume_delta
}

pub open spec fn spec_volume_write(val: u8) -> VolumeEnvelope {
    VolumeEnvelope {
        volume: val >> 4,
        volume_increase: (val >> 3) & 0x01 != 0,
        volume_delta: val & 0x07,
    }
}

impl VolumeEnvelope {
    pub fn read(&self) -> (r: u8)
        ensures
            r == spec_volume_read(*self),
    {
        (self.volume << 4) | (if self.volume_increase { 8u8 } else { 0u8 }) | self.volume_delta
    }

    pub fn write(&mut self, val: u8)
        ensures
            *final(self) == spec_volume_write(val),
    {
        self.volume = val >> 4;
        self.volume_increase = (val >> 3) & 0x01 != 0;
        self.volume_delta = val & 0x07;
    }
}

impl Default for VolumeEnvelope {
    fn default() -> (r: Self)
        ensures
            r == (VolumeEnvelope { volume: 0u8, volume_increase: false, volume_delta: 0u8 }),
    {
        VolumeEnvelope { volume: 0, volume_increase: false, volume_delta: 0 }
    }
}

/// The two-byte frequency register of a channel.
#[derive(Clone, Copy)]
pub struct Timer {
    pub frequency: u16,
}

pub open spec fn spec_freq_write_lo(t: Timer, val: u8) -> Timer {
    Timer { frequency: (t.frequency & 0xf0) | (val as u16) }
}

pub open spec fn spec_freq_write_hi(t: Timer, val: u8) -> Timer {
    Timer { frequency: (t.frequency & 0x0f) | (((val & 0x05) as u16) << 8) }
}

impl Timer {
    pub fn write_lo(&mut self, val: u8)
        ensures
            *final(self) == spec_freq_write_lo(*old(self), val),
    {
        self.frequency = (self.frequency & 0xf0) | (val as u16);
    }

    pub fn write_hi(&mut self, val: u8)
        ensures
            *final(self) == spec_freq_write_hi(*old(self), val),
    {
        let v = (val & 0x05) as u16;
        self.frequency = (self.frequency & 0x0f) | (v << 8);
    }
}

impl Default for Timer {
    fn default() -> (r: Self)
        ensures
            r == (Timer { frequency: 0u16 }),
    {
        Timer { frequency: 0 }
    }
}

/// The sixteen bytes of wave-pattern storage of the third channel.
pub struct Wave {
    pub data: Vec<u8>,
}

pub open spec fn wave_wf(w: Wave) -> bool {
    w.data@.len() == 16
}

impl Wave {
    /// Cleared wave storage.
    pub fn new() -> (r: Self)
        ensures
            r.data@ =~= Seq::new(16, |i: int| 0u8),
    {
        let mut data: Vec<u8> = Vec::new();
        let mut i: usize = 0;
        while i < 16
            invariant
                i <= 16,
                data@ =~= Seq::new(i as nat, |j: int| 0u8),
            decreases 16 - i,
        {
            data.push(0);
            i = i + 1;
        }
        Wave { data }
    }
}

/// The output-volume register of the wave channel.
#[derive(Clone, Copy)]
pub struct WaveVolume {
    pub volume: u8,
}

pub open spec fn spec_wave_volume_read(v: WaveVolume) -> u8 {
    0x80u8 | (v.volume << 5) | 0x1fu8
}

pub open spec fn spec_wave_volume_write(val: u8) -> WaveVolume {
    WaveVolume { volume: (val >> 5) & 0x03 }
}

impl WaveVolume {
    pub fn write(&mut self, val: u8)
        ensures
            *final(self) == spec_wave_volume_write(val),
    {
        self.volume = (val >> 5) & 0x03;
    }

    pub fn read(&self) -> (r: u8)
        ensures
            r == spec_wave_volume_read(*self),
    {
        0x80 | (self.volume << 5) | 0x1f
    }
}

impl Default for WaveVolume {
    fn default() -> (r: Self)
        ensures
            r == (WaveVolume { volume: 0u8 }),
    {
        WaveVolume { volume: 0 }
    }
}

/// The noise-control register of the fourth channel.
#[derive(Clone, Copy)]
pub struct LSFR {
    pub shift_clock: u8,
    pub width: u8,
    pub divider: u8,
}

pub open spec fn spec_lsfr_read(l: LSFR) -> u8 {
    (l.shift_clock << 4) | (l.width << 3) | l.divider
}

pub open spec fn spec_lsfr_write(val: u8) -> LSFR {
    LSFR { shift_clock: val >> 4, width: (val >> 3) & 0x01, divider: val & 0x07 }
}

impl LSFR {
    pub fn write(&mut self, val: u8)
        ensures
            *final(self) == spec_lsfr_write(val),
    {
        self.shift_clock = val >> 4;
        self.width = (val >> 3) & 0x01;
        self.divider = val & 0x07;
    }

    pub fn read(&self) -> (r: u8)
        ensures
            r == spec_lsfr_read(*self),
    {
        (self.shift_clock << 4) | (self.width << 3) | self.divider
    }
}

impl Default for LSFR {
    fn default() -> (r: Self)
        ensures
            r == (LSFR { shift_clock: 0u8, width: 0u8, divider: 0u8 }),
    {
        LSFR { shift_clock: 0, width: 0, divider: 0 }
    }
}

} // verus!
