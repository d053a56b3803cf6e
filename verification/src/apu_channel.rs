//! The four audio channels: two square waves, the wave channel, and the
//! noise channel.  Each couples its units to an active flag, a DAC-enable
//! flag, and the length-counter gate.

use vstd::prelude::*;
use crate::apu_unit::{
    Sweep, SquareWave, LengthCounter, VolumeEnvelope, Timer, Wave, WaveVolume, LSFR,
    length_counter_wf, wave_wf, spec_sweep_write, spec_square_write, spec_length_write,
    spec_length_step, spec_volume_write, spec_freq_write_lo, spec_freq_write_hi,
    spec_wave_volume_write, spec_lsfr_write,
};
use crate::frame_sequencer::{FrameSequencer, spec_fs_length_step};

verus! {

/// The first square channel, with a frequency sweep.
pub struct Channel1 {
    pub sweep: Sweep,
    pub wave: SquareWave,
    pub length: LengthCounter,
    pub volume: VolumeEnvelope,
    pub timer: Timer,

    pub active: bool,
    pub dac_enabled: bool,
    pub length_enabled: bool,
}

/// The second square channel.
pub struct Channel2 {
    pub wave: SquareWave,
    pub length: LengthCounter,
    pub volume: VolumeEnvelope,
    pub timer: Timer,

    pub active: bool,
    pub dac_enabled: bool,
    pub length_enabled: bool,
}

/// The wave channel, playing sixteen bytes of sampled data.
pub struct Channel3 {
    pub timer: Timer,
    pub wave: Wave,
    pub length: LengthCounter,
    pub volume: WaveVolume,

    pub active: bool,
    pub dac_enabled: bool,
    pub length_enabled: bool,
}

/// The noise channel.
pub struct Channel4 {
    pub timer: Timer,
    pub lsfr: LSFR,
    pub length: LengthCounter,
    pub volume: VolumeEnvelope,

    pub active: bool,
    pub dac_enabled: bool,
    pub length_enabled: bool,
}

/// A trigger write: when the trigger bit is set, the length counter starts
/// being clocked and the channel goes active exactly when its DAC is on.
pub open spec fn spec_trigger_bit(val: u8) -> bool {
    (val >> 7) & 1 != 0
}

/// The length-enable bit of a trigger-register write.
pub open spec fn spec_length_enable_bit(val: u8) -> bool {
    (val >> 6) & 1 != 0
}

pub open spec fn spec_chan1_trigger(c: Channel1, val: u8) -> Channel1 {
    if spec_trigger_bit(val) {
        Channel1 {
            length: LengthCounter { clocked: true, ..c.length },
            active: c.dac_enabled,
            ..c
        }
    } else {
        c
    }
}

pub open spec fn spec_chan1_write_volume(c: Channel1, val: u8) -> Channel1 {
    Channel1 {
        volume: spec_volume_write(val),
        dac_enabled: val >> 3 != 0,
        active: if val >> 3 != 0 { c.active } else { false },
        ..c
    }
}

pub open spec fn spec_chan1_deactivate(c: Channel1) -> Channel1 {
    Channel1 {
        active: false,
        dac_enabled: false,
        length_enabled: false,
        sweep: spec_sweep_write(0),
        wave: spec_square_write(0),
        length: spec_length_write(c.length, 0),
        volume: spec_volume_write(0),
        timer: spec_freq_write_hi(spec_freq_write_lo(c.timer, 0), 0),
        ..c
    }
}

pub open spec fn spec_chan1_step(c: Channel1, fs: FrameSequencer) -> Channel1 {
    if spec_fs_length_step(fs) && c.length_enabled {
        let r = spec_length_step(c.length);
        Channel1 { length: r.0, active: if r.1 { false } else { c.active }, ..c }
    } else {
        c
    }
}

impl Channel1 {
    pub fn trigger(&mut self, val: u8)
        ensures
            *final(self) == spec_chan1_trigger(*old(self), val),
    {
        if (val >> 7) & 0x01 != 0 {
            self.length.clocked = true;
            self.active = self.dac_enabled;
        }
    }

    pub fn write_length_active(&mut self, val: u8)
        ensures
            *final(self) == (Channel1 { length_enabled: spec_length_enable_bit(val), ..*old(self) }),
    {
        self.length_enabled = (val >> 6) & 0x01 != 0;
    }

    pub fn write_volume(&mut self, val: u8)
        ensures
            *final(self) == spec_chan1_write_volume(*old(self), val),
    {
        self.volume.write(val);
        self.dac_enabled = (val >> 3) != 0;
        if !self.dac_enabled {
            self.active = false;
        }
    }

    pub fn deactivate(&mut self)
        requires
            length_counter_wf(old(self).length),
        ensures
            *final(self) == spec_chan1_deactivate(*old(self)),
    {
        self.active = false;
        self.dac_enabled = false;
        self.length_enabled = false;

        self.sweep.write(0);
        self.wave.write(0);
        self.length.write(0);
        self.volume.write(0);
        self.timer.write_lo(0);
        self.timer.write_hi(0);
    }

    pub fn step(&mut self, frame_sequencer: &FrameSequencer)
        requires
            length_counter_wf(old(self).length),
        ensures
            *final(self) == spec_chan1_step(*old(self), *frame_sequencer),
    {
        if frame_sequencer.length_step() && self.length_enabled {
            let fired = self.length.step();
            if fired {
                self.active = false;
            }
        }
    }

    pub fn active(&self) -> (r: bool)
        ensures
            r == self.active,
    {
        self.active
    }
}

pub open spec fn spec_chan2_trigger(c: Channel2, val: u8) -> Channel2 {
    if spec_trigger_bit(val) {
        Channel2 {
            length: LengthCounter { clocked: true, ..c.length },
            active: c.dac_enabled,
            ..c
        }
    } else {
        c
    }
}

pub open spec fn spec_chan2_write_volume(c: Channel2, val: u8) -> Channel2 {
    Channel2 {
        volume: spec_volume_write(val),
        dac_enabled: val >> 3 != 0,
        active: if val >> 3 != 0 { c.active } else { false },
        ..c
    }
}

pub open spec fn spec_chan2_deactivate(c: Channel2) -> Channel2 {
    Channel2 {
        active: false,
        dac_enabled: false,
        length_enabled: false,
        wave: spec_square_write(0),
        length: spec_length_write(c.length, 0),
        volume: spec_volume_write(0),
        timer: spec_freq_write_hi(spec_freq_write_lo(c.timer, 0), 0),
        ..c
    }
}

pub open spec fn spec_chan2_step(c: Channel2, fs: FrameSequencer) -> Channel2 {
    if spec_fs_length_step(fs) && c.length_enabled {
        let r = spec_length_step(c.length);
        Channel2 { length: r.0, active: if r.1 { false } else { c.active }, ..c }
    } else {
        c
    }
}

impl Channel2 {
    pub fn trigger(&mut self, val: u8)
        ensures
            *final(self) == spec_chan2_trigger(*old(self), val),
    {
        if (val >> 7) & 0x01 != 0 {
            self.length.clocked = true;
            self.active = self.dac_enabled;
        }
    }

    pub fn write_length_active(&mut self, val: u8)
        ensures
            *final(self) == (Channel2 { length_enabled: spec_length_enable_bit(val), ..*old(self) }),
    {
        self.length_enabled = (val >> 6) & 0x01 != 0;
    }

    pub fn write_volume(&mut self, val: u8)
        ensures
            *final(self) == spec_chan2_write_volume(*old(self), val),
    {
        self.volume.write(val);
        self.dac_enabled = (val >> 3) != 0;
        if !self.dac_enabled {
            self.active = false;
        }
    }

    pub fn deactivate(&mut self)
        requires
            length_counter_wf(old(self).length),
        ensures
            *final(self) == spec_chan2_deactivate(*old(self)),
    {
        self.active = false;
        self.dac_enabled = false;
        self.length_enabled = false;

        self.wave.write(0);
        self.length.write(0);
        self.volume.write(0);
        self.timer.write_lo(0);
        self.timer.write_hi(0);
    }

    pub fn step(&mut self, frame_sequencer: &FrameSequencer)
        requires
            length_counter_wf(old(self).length),
        ensures
            *final(self) == spec_chan2_step(*old(self), *frame_sequencer),
    {
        if frame_sequencer.length_step() && self.length_enabled {
            let fired = self.length.step();
            if fired {
                self.active = false;
            }
        }
    }

    pub fn active(&self) -> (r: bool)
        ensures
            r == self.active,
    {
        self.active
    }
}

pub open spec fn spec_chan3_write_dac(c: Channel3, val: u8) -> Channel3 {
    let dac = (val >> 7) & 1 != 0;
    Channel3 { dac_enabled: dac, active: if dac { c.active } else { false }, ..c }
}

pub open spec fn spec_chan3_trigger(c: Channel3, val: u8) -> Channel3 {
    if spec_trigger_bit(val) {
        Channel3 {
            length: LengthCounter { clocked: true, ..c.length },
            active: c.dac_enabled,
            ..c
        }
    } else {
        c
    }
}

pub open spec fn spec_chan3_deactivate(c: Channel3) -> Channel3 {
    Channel3 {
        active: false,
        dac_enabled: false,
        length_enabled: false,
        timer: spec_freq_write_hi(spec_freq_write_lo(c.timer, 0), 0),
        length: spec_length_write(c.length, 0),
        volume: spec_wave_volume_write(0),
        ..c
    }
}

pub open spec fn spec_chan3_step(c: Channel3, fs: FrameSequencer) -> Channel3 {
    if spec_fs_length_step(fs) && c.length_enabled {
        let r = spec_length_step(c.length);
        Channel3 { length: r.0, active: if r.1 { false } else { c.active }, ..c }
    } else {
        c
    }
}

impl Channel3 {
    pub fn write_dac(&mut self, val: u8)
        ensures
            *final(self) == spec_chan3_write_dac(*old(self), val),
    {
        self.dac_enabled = (val >> 7) & 0x01 != 0;
        if !self.dac_enabled {
            self.active = false;
        }
    }

    pub fn trigger(&mut self, val: u8)
        ensures
            *final(self) == spec_chan3_trigger(*old(self), val),
    {
        if (val >> 7) & 0x01 != 0 {
            self.length.clocked = true;
            self.active = self.dac_enabled;
        }
    }

    pub fn write_length_active(&mut self, val: u8)
        ensures
            *final(self) == (Channel3 { length_enabled: spec_length_enable_bit(val), ..*old(self) }),
    {
        self.length_enabled = (val >> 6) & 0x01 != 0;
    }

    pub fn deactivate(&mut self)
        requires
            length_counter_wf(old(self).length),
        ensures
            *final(self) == spec_chan3_deactivate(*old(self)),
    {
        self.active = false;
        self.dac_enabled = false;
        self.length_enabled = false;

        self.timer.write_lo(0);
        self.timer.write_hi(0);
        self.length.write(0);
        self.volume.write(0);
    }

    pub fn step(&mut self, frame_sequencer: &FrameSequencer)
        requires
            length_counter_wf(old(self).length),
        ensures
            *final(self) == spec_chan3_step(*old(self), *frame_sequencer),
    {
        if frame_sequencer.length_step() && self.length_enabled {
            let fired = self.length.step();
            if fired {
                self.active = false;
            }
        }
    }

    pub fn active(&self) -> (r: bool)
        ensures
            r == self.active,
    {
        self.active
    }

    pub fn dac_enabled(&self) -> (r: bool)
        ensures
            r == self.dac_enabled,
    {
        self.dac_enabled
    }
}

pub open spec fn spec_chan4_trigger(c: Channel4, val: u8) -> Channel4 {
    if spec_trigger_bit(val) {
        Channel4 {
            length: LengthCounter { clocked: true, ..c.length },
            active: c.dac_enabled,
            ..c
        }
    } else {
        c
    }
}

pub open spec fn spec_chan4_write_volume(c: Channel4, val: u8) -> Channel4 {
    Channel4 {
        volume: spec_volume_write(val),
        dac_enabled: val >> 3 != 0,
        active: if val >> 3 != 0 { c.active } else { false },
        ..c
    }
}

pub open spec fn spec_chan4_deactivate(c: Channel4) -> Channel4 {
    Channel4 {
        active: false,
        dac_enabled: false,
        length_enabled: false,
        timer: spec_freq_write_hi(spec_freq_write_lo(c.timer, 0), 0),
        lsfr: spec_lsfr_write(0),
        length: spec_length_write(c.length, 0),
        volume: spec_volume_write(0),
        ..c
    }
}

pub open spec fn spec_chan4_step(c: Channel4, fs: FrameSequencer) -> Channel4 {
    if spec_fs_length_step(fs) && c.length_enabled {
        let r = spec_length_step(c.length);
        Channel4 { length: r.0, active: if r.1 { false } else { c.active }, ..c }
    } else {
        c
    }
}

impl Channel4 {
    pub fn trigger(&mut self, val: u8)
        ensures
            *final(self) == spec_chan4_trigger(*old(self), val),
    {
        if (val >> 7) & 0x01 != 0 {
            self.length.clocked = true;
            self.active = self.dac_enabled;
        }
    }

    pub fn write_length_active(&mut self, val: u8)
        ensures
            *final(self) == (Channel4 { length_enabled: spec_length_enable_bit(val), ..*old(self) }),
    {
        self.length_enabled = (val >> 6) & 0x01 != 0;
    }

    pub fn write_volume(&mut self, val: u8)
        ensures
            *final(self) == spec_chan4_write_volume(*old(self), val),
    {
        self.volume.write(val);
        self.dac_enabled = (val >> 3) != 0;
        if !self.dac_enabled {
            self.active = false;
        }
    }

    pub fn deactivate(&mut self)
        requires
            length_counter_wf(old(self).length),
        ensures
            *final(self) == spec_chan4_deactivate(*old(self)),
    {
        self.active = false;
        self.dac_enabled = false;
        self.length_enabled = false;

        self.timer.write_lo(0);
        self.timer.write_hi(0);
        self.lsfr.write(0);
        self.length.write(0);
        self.volume.write(0);
    }

    pub fn step(&mut self, frame_sequencer: &FrameSequencer)
        requires
            length_counter_wf(old(self).length),
        ensures
            *final(self) == spec_chan4_step(*old(self), *frame_sequencer),
    {
        if frame_sequencer.length_step() && self.length_enabled {
            let fired = self.length.step();
            if fired {
                self.active = false;
            }
        }
    }

    pub fn active(&self) -> (r: bool)
        ensures
            r == self.active,
    {
        self.active
    }
}

/// The power-on states.
impl Default for Channel1 {
    fn default() -> (r: Self)
        ensures
            r == (Channel1 {
                sweep: (Sweep { sweep_time: 0u8, sweep_increase: false, sweep_shift: 0u8 }),
                wave: (SquareWave { duty_pattern: 0u8 }),
                length: LengthCounter {
                    clocked: false,
                    length: 0u8,
                    bit_length: 6u8,
                    last: 0u8,
                    active: false,
                },
                volume: (VolumeEnvelope { volume: 0u8, volume_increase: false, volume_delta: 0u8 }),
                timer: Timer { frequency: 0u16 },
                active: false,
                dac_enabled: false,
                length_enabled: true,
            }),
    {
        Channel1 {
            sweep: Sweep::default(),
            wave: SquareWave::default(),
            length: LengthCounter::new(6),
            volume: VolumeEnvelope::default(),
            timer: Timer::default(),

            active: false,
            dac_enabled: false,
            length_enabled: true,
        }
    }
}

impl Default for Channel2 {
    fn default() -> (r: Self)
        ensures
            r == (Channel2 {
                wave: (SquareWave { duty_pattern: 0u8 }),
                length: LengthCounter {
                    clocked: false,
                    length: 0u8,
                    bit_length: 6u8,
                    last: 0u8,
                    active: false,
                },
                volume: (VolumeEnvelope { volume: 0u8, volume_increase: false, volume_delta: 0u8 }),
                timer: Timer { frequency: 0u16 },
                active: false,
                dac_enabled: false,
                length_enabled: true,
            }),
    {
        Channel2 {
            wave: SquareWave::default(),
            length: LengthCounter::new(6),
            volume: VolumeEnvelope::default(),
            timer: Timer::default(),

            active: false,
            dac_enabled: false,
            length_enabled: true,
        }
    }
}

impl Channel3 {
    /// The power-on state; a method rather than `Default` because the wave
    /// storage is allocated here.
    pub fn power_on() -> (r: Self)
        ensures
            r.timer == (Timer { frequency: 0u16 }),
            r.wave.data@ =~= Seq::new(16, |i: int| 0u8),
            r.length == (LengthCounter {
                clocked: false,
                length: 0u8,
                bit_length: 8u8,
                last: 0u8,
                active: false,
            }),
            r.volume == (WaveVolume { volume: 0u8 }),
            !r.active && !r.dac_enabled && r.length_enabled,
    {
        Channel3 {
            timer: Timer::default(),
            wave: Wave::new(),
            length: LengthCounter::new(8),
            volume: WaveVolume::default(),

            active: false,
            dac_enabled: false,
            length_enabled: true,
        }
    }
}

impl Default for Channel4 {
    fn default() -> (r: Self)
        ensures
            r == (Channel4 {
                timer: Timer { frequency: 0u16 },
                lsfr: (LSFR { shift_clock: 0u8, width: 0u8, divider: 0u8 }),
                length: LengthCounter {
                    clocked: false,
                    length: 0u8,
                    bit_length: 6u8,
                    last: 0u8,
                    active: false,
                },
                volume: (VolumeEnvelope { volume: 0u8, volume_increase: false, volume_delta: 0u8 }),
                active: false,
                dac_enabled: false,
                length_enabled: true,
            }),
    {
        Channel4 {
            timer: Timer::default(),
            lsfr: LSFR::default(),
            length: LengthCounter::new(6),
            volume: VolumeEnvelope::default(),

            active: false,
            dac_enabled: false,
            length_enabled: true,
        }
    }
}

} // verus!
