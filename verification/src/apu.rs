//! The audio peripheral: four channels behind a register window, a master
//! enable, and a 512 Hz frame sequencer derived from the main clock.

use vstd::prelude::*;
use crate::apu_channel::{
    Channel1, Channel2, Channel3, Channel4, spec_chan1_trigger, spec_chan1_write_volume,
    spec_chan1_deactivate, spec_chan1_step, spec_chan2_trigger, spec_chan2_write_volume,
    spec_chan2_deactivate, spec_chan2_step, spec_chan3_write_dac, spec_chan3_trigger,
    spec_chan3_deactivate, spec_chan3_step, spec_chan4_trigger, spec_chan4_write_volume,
    spec_chan4_deactivate, spec_chan4_step, spec_length_enable_bit,
};
use crate::apu_unit::{
    length_counter_wf, wave_wf, spec_sweep_read, spec_square_read, spec_volume_read,
    spec_wave_volume_read, spec_lsfr_read, spec_square_write, spec_length_write,
    spec_freq_write_lo, spec_freq_write_hi,
};
use crate::frame_sequencer::{FrameSequencer, spec_fs_step};

verus! {

/// How many main-clock cycles one frame-sequencer step spans.
pub const AUDIO_STEP_CYCLE_COUNT: u16 = 8192;

/// The audio peripheral.
pub struct Apu {
    pub chan1: Channel1,
    pub chan2: Channel2,
    pub chan3: Channel3,
    pub chan4: Channel4,

    pub out_chan_control: u8,
    pub output_terminal: u8,
    pub sound_active: bool,

    pub cycles: u16,
    pub frame_sequencer: FrameSequencer,
}

/// Well-formedness: every length counter watches a representable bit, and
/// the wave storage holds its sixteen bytes.
pub open spec fn apu_wf(a: Apu) -> bool {
    &&& length_counter_wf(a.chan1.length)
    &&& length_counter_wf(a.chan2.length)
    &&& length_counter_wf(a.chan3.length)
    &&& length_counter_wf(a.chan4.length)
    &&& wave_wf(a.chan3.wave)
}

/// The byte each audio register reads as; unused addresses and the
/// write-only frequency registers read as all-ones (with the documented
/// always-set bits elsewhere).
pub open spec fn spec_apu_read_reg(a: Apu, addr: u16) -> u8 {
    if addr == 0xff10 {
        spec_sweep_read(a.chan1.sweep)
    } else if addr == 0xff11 {
        spec_square_read(a.chan1.wave) | 0x3f
    } else if addr == 0xff12 {
        spec_volume_read(a.chan1.volume)
    } else if addr == 0xff14 {
        if a.chan1.length.clocked { 0xff } else { 0xbf }
    } else if addr == 0xff16 {
        spec_square_read(a.chan2.wave) | 0x3f
    } else if addr == 0xff17 {
        spec_volume_read(a.chan2.volume)
    } else if addr == 0xff19 {
        if a.chan2.length.clocked { 0xff } else { 0xbf }
    } else if addr == 0xff1a {
        if a.chan3.active { 0xff } else { 0x7f }
    } else if addr == 0xff1c {
        spec_wave_volume_read(a.chan3.volume)
    } else if addr == 0xff1e {
        if a.chan3.length.clocked { 0xff } else { 0xbf }
    } else if addr == 0xff21 {
        spec_volume_read(a.chan4.volume)
    } else if addr == 0xff22 {
        spec_lsfr_read(a.chan4.lsfr)
    } else if addr == 0xff23 {
        if a.chan4.length.clocked { 0xff } else { 0xbf }
    } else if addr == 0xff24 {
        a.out_chan_control
    } else if addr == 0xff25 {
        a.output_terminal
    } else if addr == 0xff26 {
        (if a.sound_active { 0xf0u8 } else { 0x70u8 }) | (if a.chan1.active { 0x01u8 } else { 0u8 })
    } else if 0xff30 <= addr && addr <= 0xff3f {
        a.chan3.wave.data@[addr - 0xff30]
    } else {
        0xff
    }
}

/// How a register write relates the peripheral after to the peripheral
/// before.  While the master enable is off, only the master-enable
/// register reacts; turning it off silences and clears every channel.
pub open spec fn spec_apu_write_reg(a: Apu, addr: u16, val: u8, post: Apu) -> bool {
    if !a.sound_active && addr != 0xff26 {
        post == a
    } else if addr == 0xff10 {
        post == Apu { chan1: Channel1 { sweep: crate::apu_unit::spec_sweep_write(val), ..a.chan1 }, ..a }
    } else if addr == 0xff11 {
        post == Apu {
            chan1: Channel1 {
                wave: spec_square_write(val),
                length: spec_length_write(a.chan1.length, val),
                ..a.chan1
            },
            ..a
        }
    } else if addr == 0xff12 {
        post == Apu { chan1: spec_chan1_write_volume(a.chan1, val), ..a }
    } else if addr == 0xff13 {
        post == Apu { chan1: Channel1 { timer: spec_freq_write_lo(a.chan1.timer, val), ..a.chan1 }, ..a }
    } else if addr == 0xff14 {
        post == Apu {
            chan1: Channel1 {
                length_enabled: spec_length_enable_bit(val),
                ..spec_chan1_trigger(
                    Channel1 { timer: spec_freq_write_hi(a.chan1.timer, val), ..a.chan1 },
                    val,
                )
            },
            ..a
        }
    } else if addr == 0xff16 {
        post == Apu {
            chan2: Channel2 {
                wave: spec_square_write(val),
                length: spec_length_write(a.chan2.length, val),
                ..a.chan2
            },
            ..a
        }
    } else if addr == 0xff17 {
        post == Apu { chan2: spec_chan2_write_volume(a.chan2, val), ..a }
    } else if addr == 0xff18 {
        post == Apu { chan2: Channel2 { timer: spec_freq_write_lo(a.chan2.timer, val), ..a.chan2 }, ..a }
    } else if addr == 0xff19 {
        post == Apu {
            chan2: Channel2 {
                length_enabled: spec_length_enable_bit(val),
                ..spec_chan2_trigger(
                    Channel2 { timer: spec_freq_write_hi(a.chan2.timer, val), ..a.chan2 },
                    val,
                )
            },
            ..a
        }
    } else if addr == 0xff1a {
        post == Apu { chan3: spec_chan3_write_dac(a.chan3, val), ..a }
    } else if addr == 0xff1b {
        post == Apu { chan3: Channel3 { length: spec_length_write(a.chan3.length, val), ..a.chan3 }, ..a }
    } else if addr == 0xff1c {
        post == Apu {
            chan3: Channel3 { volume: crate::apu_unit::spec_wave_volume_write(val), ..a.chan3 },
            ..a
        }
    } else if addr == 0xff1d {
        post == Apu { chan3: Channel3 { timer: spec_freq_write_lo(a.chan3.timer, val), ..a.chan3 }, ..a }
    } else if addr == 0xff1e {
        post == Apu {
            chan3: Channel3 {
                length_enabled: spec_length_enable_bit(val),
                ..spec_chan3_trigger(
                    Channel3 { timer: spec_freq_write_hi(a.chan3.timer, val), ..a.chan3 },
                    val,
                )
            },
            ..a
        }
    } else if addr == 0xff20 {
        post == Apu { chan4: Channel4 { length: spec_length_write(a.chan4.length, val), ..a.chan4 }, ..a }
    } else if addr == 0xff21 {
        post == Apu { chan4: spec_chan4_write_volume(a.chan4, val), ..a }
    } else if addr == 0xff22 {
        post == Apu { chan4: Channel4 { lsfr: crate::apu_unit::spec_lsfr_write(val), ..a.chan4 }, ..a }
    } else if addr == 0xff23 {
        post == Apu {
            chan4: Channel4 {
                length_enabled: spec_length_enable_bit(val),
                ..spec_chan4_trigger(a.chan4, val)
            },
            ..a
        }
    } else if addr == 0xff24 {
        post == Apu { out_chan_control: val, ..a }
    } else if addr == 0xff25 {
        post == Apu { output_terminal: val, ..a }
    } else if addr == 0xff26 {
        if (val >> 7) & 1 != 0 {
            post == Apu { sound_active: true, ..a }
        } else {
            post == Apu {
                sound_active: false,
                chan1: spec_chan1_deactivate(a.chan1),
                chan2: spec_chan2_deactivate(a.chan2),
                chan3: spec_chan3_deactivate(a.chan3),
                chan4: spec_chan4_deactivate(a.chan4),
                out_chan_control: 0u8,
                output_terminal: 0u8,
                ..a
            }
        }
    } else if 0xff30 <= addr && addr <= 0xff3f {
        &&& post.chan3.wave.data@ == a.chan3.wave.data@.update(addr - 0xff30, val)
        &&& post.chan3.timer == a.chan3.timer
        &&& post.chan3.length == a.chan3.length
        &&& post.chan3.volume == a.chan3.volume
        &&& post.chan3.active == a.chan3.active
        &&& post.chan3.dac_enabled == a.chan3.dac_enabled
        &&& post.chan3.length_enabled == a.chan3.length_enabled
        &&& post == Apu { chan3: post.chan3, ..a }
    } else {
        post == a
    }
}

/// One frame-sequencer step: the sequencer advances, then every channel's
/// length counter is clocked from it.
pub open spec fn spec_apu_inner_step(a: Apu) -> Apu {
    let fs = spec_fs_step(a.frame_sequencer);
    Apu {
        frame_sequencer: fs,
        chan1: spec_chan1_step(a.chan1, fs),
        chan2: spec_chan2_step(a.chan2, fs),
        chan3: spec_chan3_step(a.chan3, fs),
        chan4: spec_chan4_step(a.chan4, fs),
        ..a
    }
}

/// Draining an accumulated cycle count: one inner step per full span, the
/// remainder kept for the next call.
pub open spec fn spec_apu_run(a: Apu, acc: nat) -> Apu
    decreases acc,
{
    if acc > 8192 {
        spec_apu_run(spec_apu_inner_step(a), (acc - 8192) as nat)
    } else {
        Apu { cycles: acc as u16, ..a }
    }
}

impl Apu {
    /// The power-on state: everything silent and cleared.
    pub fn new() -> (r: Self)
        ensures
            apu_wf(r),
            !r.sound_active,
            r.cycles == 0,
            r.out_chan_control == 0 && r.output_terminal == 0,
            r.frame_sequencer == (FrameSequencer { cycles: 0u8 }),
    {
        Apu {
            chan1: Channel1::default(),
            chan2: Channel2::default(),
            chan3: Channel3::power_on(),
            chan4: Channel4::default(),

            out_chan_control: 0,
            output_terminal: 0,
            sound_active: false,

            cycles: 0,
            frame_sequencer: FrameSequencer::default(),
        }
    }

    /// Reads an audio register.
    pub fn read_reg(&self, addr: u16) -> (r: u8)
        requires
            apu_wf(*self),
        ensures
            r == spec_apu_read_reg(*self, addr),
    {
        if addr == 0xff10 {
            self.chan1.sweep.read()
        } else if addr == 0xff11 {
            self.chan1.wave.read() | 0x3f
        } else if addr == 0xff12 {
            self.chan1.volume.read()
        } else if addr == 0xff14 {
            if self.chan1.length.clocked { 0xff } else { 0xbf }
        } else if addr == 0xff16 {
            self.chan2.wave.read() | 0x3f
        } else if addr == 0xff17 {
            self.chan2.volume.read()
        } else if addr == 0xff19 {
            if self.chan2.length.clocked { 0xff } else { 0xbf }
        } else if addr == 0xff1a {
            if self.chan3.active() { 0xff } else { 0x7f }
        } else if addr == 0xff1c {
            self.chan3.volume.read()
        } else if addr == 0xff1e {
            if self.chan3.length.clocked { 0xff } else { 0xbf }
        } else if addr == 0xff21 {
            self.chan4.volume.read()
        } else if addr == 0xff22 {
            self.chan4.lsfr.read()
        } else if addr == 0xff23 {
            if self.chan4.length.clocked { 0xff } else { 0xbf }
        } else if addr == 0xff24 {
            self.out_chan_control
        } else if addr == 0xff25 {
            self.output_terminal
        } else if addr == 0xff26 {
            let high: u8 = if self.sound_active { 0xf0 } else { 0x70 };
            let chan1: u8 = if self.chan1.active() { 0x01 } else { 0x00 };
            high | chan1
        } else if 0xff30 <= addr && addr <= 0xff3f {
            self.chan3.wave.data[(addr - 0xff30) as usize]
        } else {
            0xff
        }
    }

    /// Writes an audio register.
    pub fn write_reg(&mut self, addr: u16, val: u8)
        requires
            apu_wf(*old(self)),
        ensures
            apu_wf(*final(self)),
            spec_apu_write_reg(*old(self), addr, val, *final(self)),
    {
        if !self.sound_active && addr != 0xff26 {
            return ;
        }

        if addr <= 0xff14 {
            self.write_reg_chan1(addr, val);
        } else if addr <= 0xff1e {
            self.write_reg_chan23(addr, val);
        } else if addr <= 0xff2f {
            self.write_reg_chan4_master(addr, val);
        } else if addr <= 0xff3f {
            if 0xff30 <= addr {
                self.chan3.wave.data.set((addr - 0xff30) as usize, val);
            }
        }
    }

    #[verifier::spinoff_prover]
    #[verifier::rlimit(100)]
    fn write_reg_chan1(&mut self, addr: u16, val: u8)
        requires
            apu_wf(*old(self)),
            addr <= 0xff14,
            old(self).sound_active || addr == 0xff26,
        ensures
            apu_wf(*final(self)),
            spec_apu_write_reg(*old(self), addr, val, *final(self)),
    {
        if addr == 0xff10 {
            self.chan1.sweep.write(val);
        } else if addr == 0xff11 {
            self.chan1.wave.write(val);
            self.chan1.length.write(val);
        } else if addr == 0xff12 {
            self.chan1.write_volume(val);
        } else if addr == 0xff13 {
            self.chan1.timer.write_lo(val);
        } else if addr == 0xff14 {
            self.chan1.timer.write_hi(val);
            self.chan1.trigger(val);
            self.chan1.write_length_active(val);
        }
    }

    #[verifier::spinoff_prover]
    #[verifier::rlimit(100)]
    fn write_reg_chan23(&mut self, addr: u16, val: u8)
        requires
            apu_wf(*old(self)),
            0xff15 <= addr <= 0xff1e,
            old(self).sound_active,
        ensures
            apu_wf(*final(self)),
            spec_apu_write_reg(*old(self), addr, val, *final(self)),
    {
        if addr == 0xff16 {
            self.chan2.wave.write(val);
            self.chan2.length.write(val);
        } else if addr == 0xff17 {
            self.chan2.write_volume(val);
        } else if addr == 0xff18 {
            self.chan2.timer.write_lo(val);
        } else if addr == 0xff19 {
            self.chan2.timer.write_hi(val);
            self.chan2.trigger(val);
            self.chan2.write_length_active(val);
        } else if addr == 0xff1a {
            self.chan3.write_dac(val);
        } else if addr == 0xff1b {
            self.chan3.length.write(val);
        } else if addr == 0xff1c {
            self.chan3.volume.write(val);
        } else if addr == 0xff1d {
            self.chan3.timer.write_lo(val);
        } else if addr == 0xff1e {
            self.chan3.timer.write_hi(val);
            self.chan3.trigger(val);
            self.chan3.write_length_active(val);
        }
    }

    #[verifier::spinoff_prover]
    #[verifier::rlimit(100)]
    fn write_reg_chan4_master(&mut self, addr: u16, val: u8)
        requires
            apu_wf(*old(self)),
            0xff1f <= addr <= 0xff2f,
            old(self).sound_active || addr == 0xff26,
        ensures
            apu_wf(*final(self)),
            spec_apu_write_reg(*old(self), addr, val, *final(self)),
    {
        if addr == 0xff20 {
            self.chan4.length.write(val);
        } else if addr == 0xff21 {
            self.chan4.write_volume(val);
        } else if addr == 0xff22 {
            self.chan4.lsfr.write(val);
        } else if addr == 0xff23 {
            self.chan4.trigger(val);
            self.chan4.write_length_active(val);
        } else if addr == 0xff24 {
            self.out_chan_control = val;
        } else if addr == 0xff25 {
            self.output_terminal = val;
        } else if addr == 0xff26 {
            self.sound_active = (val >> 7) & 0x01 != 0;
            if !self.sound_active {
                self.chan1.deactivate();
                self.chan2.deactivate();
                self.chan3.deactivate();
                self.chan4.deactivate();

                self.out_chan_control = 0;
                self.output_terminal = 0;
            }
        }
    }

    /// Accumulates `cycles` main-clock cycles and performs one
    /// frame-sequencer step for every full span they cover.
    pub fn step(&mut self, cycles: u16)
        requires
            apu_wf(*old(self)),
        ensures
            apu_wf(*final(self)),
            *final(self) == spec_apu_run(*old(self), (old(self).cycles + cycles) as nat),
    {
        let mut acc: u32 = self.cycles as u32 + cycles as u32;
        while acc > 8192
            invariant
                apu_wf(*self),
                acc <= u16::MAX as u32 + u16::MAX as u32,
                spec_apu_run(*old(self), (old(self).cycles + cycles) as nat) == spec_apu_run(
                    *self,
                    acc as nat,
                ),
            decreases acc,
        {
            self.inner_step();
            acc = acc - 8192;
        }
        self.cycles = acc as u16;
    }

    fn inner_step(&mut self)
        requires
            apu_wf(*old(self)),
        ensures
            apu_wf(*final(self)),
            *final(self) == spec_apu_inner_step(*old(self)),
    {
        self.frame_sequencer.step();

        let fs = self.frame_sequencer;
        self.chan1.step(&fs);
        self.chan2.step(&fs);
        self.chan3.step(&fs);
        self.chan4.step(&fs);
    }
}

} // verus!
