//! The display peripheral: video RAM, the object/attribute table, the
//! LCD registers, and the scanline state machine the bus steps.
//!
//! The register file, the mode/scanline timing and the interrupts it
//! raises are specified exactly.  Pixel composition itself is a host-side
//! concern of the display; the contracts here keep the frame buffer's
//! shape and pin everything else down.

use vstd::prelude::*;
use crate::device::Device;
use crate::interrupt::{Irq, Interrupt};
use crate::nums::{w_add, w8p};

verus! {

/// Screen width in pixels.
pub const WIDTH: usize = 160;

/// Screen height in pixels.
pub const HEIGHT: usize = 144;

/// The LCD-control register's bits.
#[derive(Clone, Copy, Debug, PartialEq, Eq, Structural)]
pub struct LcdControlReg {
    pub bg_window_display: bool,
    pub sprite_display: bool,
    pub sprite_size: bool,
    pub bg_tile_map_display: bool,
    pub bg_win_tile_data: bool,
    pub window_display: bool,
    pub win_tile_map_display: bool,
    pub lcd_control_op: bool,
}

pub open spec fn spec_lcd_control_from(val: u8) -> LcdControlReg {
    LcdControlReg {
        bg_window_display: val & 1 != 0,
        sprite_display: val & 2 != 0,
        sprite_size: val & 4 != 0,
        bg_tile_map_display: val & 8 != 0,
        bg_win_tile_data: val & 0x10 != 0,
        window_display: val & 0x20 != 0,
        win_tile_map_display: val & 0x40 != 0,
        lcd_control_op: val & 0x80 != 0,
    }
}

pub open spec fn spec_lcd_control_to(r: LcdControlReg) -> u8 {
    (if r.bg_window_display { 1u8 } else { 0u8 }) | (if r.sprite_display { 2u8 } else { 0u8 })
        | (if r.sprite_size { 4u8 } else { 0u8 }) | (if r.bg_tile_map_display { 8u8 } else { 0u8 })
        | (if r.bg_win_tile_data { 0x10u8 } else { 0u8 }) | (if r.window_display {
        0x20u8
    } else {
        0u8
    }) | (if r.win_tile_map_display { 0x40u8 } else { 0u8 }) | (if r.lcd_control_op {
        0x80u8
    } else {
        0u8
    })
}

impl LcdControlReg {
    pub fn of_byte(val: u8) -> (r: Self)
        ensures
            r == spec_lcd_control_from(val),
    {
        LcdControlReg {
            bg_window_display: val & 1 != 0,
            sprite_display: val & 2 != 0,
            sprite_size: val & 4 != 0,
            bg_tile_map_display: val & 8 != 0,
            bg_win_tile_data: val & 0x10 != 0,
            window_display: val & 0x20 != 0,
            win_tile_map_display: val & 0x40 != 0,
            lcd_control_op: val & 0x80 != 0,
        }
    }

    pub fn to_byte(&self) -> (r: u8)
        ensures
            r == spec_lcd_control_to(*self),
    {
        (if self.bg_window_display { 1u8 } else { 0u8 }) | (if self.sprite_display {
            2u8
        } else {
            0u8
        }) | (if self.sprite_size { 4u8 } else { 0u8 }) | (if self.bg_tile_map_display {
            8u8
        } else {
            0u8
        }) | (if self.bg_win_tile_data { 0x10u8 } else { 0u8 }) | (if self.window_display {
            0x20u8
        } else {
            0u8
        }) | (if self.win_tile_map_display { 0x40u8 } else { 0u8 }) | (if self.lcd_control_op {
            0x80u8
        } else {
            0u8
        })
    }
}

/// The LCD-status register: the interrupt enables, the coincidence flag,
/// and the two-bit mode.
#[derive(Clone, Copy, Debug, PartialEq, Eq, Structural)]
pub struct LcdcStatusReg {
    pub coincidence_interrupt_enable: bool,
    pub oam_interrupt_enable: bool,
    pub vblank_interrupt_enable: bool,
    pub hblank_interrupt_enable: bool,
    pub coincidence_flag: bool,
    pub mode: u8,
}

pub open spec fn spec_lcdc_status_from(val: u8) -> LcdcStatusReg {
    LcdcStatusReg {
        coincidence_interrupt_enable: val & 0x40 != 0,
        oam_interrupt_enable: val & 0x20 != 0,
        vblank_interrupt_enable: val & 0x10 != 0,
        hblank_interrupt_enable: val & 8 != 0,
        coincidence_flag: val & 4 != 0,
        mode: (val & 3) as u8,
    }
}

pub open spec fn spec_lcdc_status_to(r: LcdcStatusReg) -> u8 {
    r.mode | (if r.coincidence_flag { 4u8 } else { 0u8 }) | (if r.hblank_interrupt_enable {
        8u8
    } else {
        0u8
    }) | (if r.vblank_interrupt_enable { 0x10u8 } else { 0u8 }) | (if r.oam_interrupt_enable {
        0x20u8
    } else {
        0u8
    }) | (if r.coincidence_interrupt_enable { 0x40u8 } else { 0u8 })
}

impl LcdcStatusReg {
    pub fn of_byte(val: u8) -> (r: Self)
        ensures
            r == spec_lcdc_status_from(val),
    {
        LcdcStatusReg {
            coincidence_interrupt_enable: val & 0x40 != 0,
            oam_interrupt_enable: val & 0x20 != 0,
            vblank_interrupt_enable: val & 0x10 != 0,
            hblank_interrupt_enable: val & 8 != 0,
            coincidence_flag: val & 4 != 0,
            mode: val & 3,
        }
    }

    pub fn to_byte(&self) -> (r: u8)
        ensures
            r == spec_lcdc_status_to(*self),
    {
        self.mode | (if self.coincidence_flag { 4u8 } else { 0u8 })
            | (if self.hblank_interrupt_enable { 8u8 } else { 0u8 })
            | (if self.vblank_interrupt_enable { 0x10u8 } else { 0u8 })
            | (if self.oam_interrupt_enable { 0x20u8 } else { 0u8 })
            | (if self.coincidence_interrupt_enable { 0x40u8 } else { 0u8 })
    }
}

impl Default for LcdcStatusReg {
    /// Power-on: in object-table-search mode, nothing enabled.
    fn default() -> (r: Self)
        ensures
            r == (LcdcStatusReg {
                coincidence_interrupt_enable: false,
                oam_interrupt_enable: false,
                vblank_interrupt_enable: false,
                hblank_interrupt_enable: false,
                coincidence_flag: false,
                mode: 2u8,
            }),
    {
        LcdcStatusReg {
            coincidence_interrupt_enable: false,
            oam_interrupt_enable: false,
            vblank_interrupt_enable: false,
            hblank_interrupt_enable: false,
            coincidence_flag: false,
            mode: 2,
        }
    }
}

/// A palette register: four two-bit shade selections.
#[derive(Clone, Copy, Debug, PartialEq, Eq, Structural)]
pub struct PaletteDataReg {
    pub col0_shade: u8,
    pub col1_shade: u8,
    pub col2_shade: u8,
    pub col3_shade: u8,
}

pub open spec fn spec_palette_from(val: u8) -> PaletteDataReg {
    PaletteDataReg {
        col0_shade: (val & 3) as u8,
        col1_shade: ((val >> 2) & 3) as u8,
        col2_shade: ((val >> 4) & 3) as u8,
        col3_shade: ((val >> 6) & 3) as u8,
    }
}

pub open spec fn spec_palette_to(r: PaletteDataReg) -> u8 {
    (r.col0_shade | (r.col1_shade << 2) | (r.col2_shade << 4) | (r.col3_shade << 6)) as u8
}

/// A palette selects only the four shades.
pub open spec fn palette_wf(r: PaletteDataReg) -> bool {
    r.col0_shade < 4 && r.col1_shade < 4 && r.col2_shade < 4 && r.col3_shade < 4
}

impl PaletteDataReg {
    pub fn of_byte(val: u8) -> (r: Self)
        ensures
            r == spec_palette_from(val),
            palette_wf(r),
    {
        proof {
            lemma_palette_bits(val);
        }
        PaletteDataReg {
            col0_shade: val & 3,
            col1_shade: (val >> 2) & 3,
            col2_shade: (val >> 4) & 3,
            col3_shade: (val >> 6) & 3,
        }
    }

    pub fn to_byte(&self) -> (r: u8)
        ensures
            r == spec_palette_to(*self),
    {
        self.col0_shade | (self.col1_shade << 2) | (self.col2_shade << 4) | (self.col3_shade << 6)
    }
}

impl Default for PaletteDataReg {
    fn default() -> (r: Self)
        ensures
            r == (PaletteDataReg { col0_shade: 0u8, col1_shade: 0u8, col2_shade: 0u8, col3_shade: 0u8 }),
            palette_wf(r),
    {
        PaletteDataReg { col0_shade: 0, col1_shade: 0, col2_shade: 0, col3_shade: 0 }
    }
}

proof fn lemma_palette_bits(val: u8)
    by (bit_vector)
    ensures
        val & 3 < 4,
        (val >> 2) & 3 < 4,
        (val >> 4) & 3 < 4,
        (val >> 6) & 3 < 4,
{
}

/// The display peripheral.
pub struct Gpu {
    pub vram: Vec<u8>,
    pub oam: Vec<u8>,
    pub frame_buffer: Vec<u32>,

    pub lcd_control: LcdControlReg,
    pub lcdc_status: LcdcStatusReg,
    pub scy: u8,
    pub scx: u8,
    pub ly: u8,
    pub lyc: u8,
    pub bg_palette_data: PaletteDataReg,
    pub obj0_palette_data: PaletteDataReg,
    pub obj1_palette_data: PaletteDataReg,
    pub wy: u8,
    pub wx: u8,

    pub cycles: u16,
}

/// Well-formedness: the three storages have their fixed sizes and the
/// palettes select real shades.
pub open spec fn gpu_wf(g: Gpu) -> bool {
    &&& g.vram@.len() == 0x2000
    &&& g.oam@.len() == 0xa0
    &&& g.frame_buffer@.len() == 160 * 144
    &&& palette_wf(g.bg_palette_data)
    &&& palette_wf(g.obj0_palette_data)
    &&& palette_wf(g.obj1_palette_data)
}

/// The byte each display register reads as; unmapped reads are all-ones.
pub open spec fn spec_gpu_read_reg(g: Gpu, addr: u16) -> u8 {
    if addr == 0xff40 {
        spec_lcd_control_to(g.lcd_control)
    } else if addr == 0xff41 {
        spec_lcdc_status_to(g.lcdc_status)
    } else if addr == 0xff42 {
        g.scy
    } else if addr == 0xff43 {
        g.scx
    } else if addr == 0xff44 {
        g.ly
    } else if addr == 0xff45 {
        g.lyc
    } else if addr == 0xff47 {
        spec_palette_to(g.bg_palette_data)
    } else if addr == 0xff48 {
        spec_palette_to(g.obj0_palette_data)
    } else if addr == 0xff49 {
        spec_palette_to(g.obj1_palette_data)
    } else if addr == 0xff4a {
        g.wy
    } else if addr == 0xff4b {
        g.wx
    } else {
        0xff
    }
}

/// The display state a register write leaves behind.
pub open spec fn spec_gpu_write_reg(g: Gpu, addr: u16, val: u8) -> Gpu {
    if addr == 0xff40 {
        Gpu { lcd_control: spec_lcd_control_from(val), ..g }
    } else if addr == 0xff41 {
        Gpu { lcdc_status: spec_lcdc_status_from(val), ..g }
    } else if addr == 0xff42 {
        Gpu { scy: val, ..g }
    } else if addr == 0xff43 {
        Gpu { scx: val, ..g }
    } else if addr == 0xff44 {
        Gpu { ly: val, ..g }
    } else if addr == 0xff45 {
        Gpu { lyc: val, ..g }
    } else if addr == 0xff47 {
        Gpu { bg_palette_data: spec_palette_from(val), ..g }
    } else if addr == 0xff48 {
        Gpu { obj0_palette_data: spec_palette_from(val), ..g }
    } else if addr == 0xff49 {
        Gpu { obj1_palette_data: spec_palette_from(val), ..g }
    } else if addr == 0xff4a {
        Gpu { wy: val, ..g }
    } else if addr == 0xff4b {
        Gpu { wx: val, ..g }
    } else {
        g
    }
}

/// One micro-cycle of the scanline state machine, over the fields it can
/// touch: the status register, the current line, the cycle counter.  The
/// fourth component is the interrupt bits the cycle raises.
pub open spec fn spec_gpu_tick(st: LcdcStatusReg, ly: u8, lyc: u8, cycles: u16) -> (
    LcdcStatusReg,
    u8,
    u16,
    u8,
) {
    let c1 = w_add(cycles, 1);
    if st.mode == 2 && c1 == 85 {
        (LcdcStatusReg { mode: 3u8, ..st }, ly, c1, 0u8)
    } else if st.mode == 3 && c1 == 256 {
        (st, ly, c1, if st.hblank_interrupt_enable { 2u8 } else { 0u8 })
    } else if st.mode == 3 && c1 == 260 {
        (LcdcStatusReg { mode: 0u8, ..st }, ly, c1, 0u8)
    } else if st.mode == 0 && c1 == 456 {
        let ly1 = w8p(ly + 1);
        let coinc = ly1 == lyc;
        let stat_coinc = st.coincidence_interrupt_enable && coinc;
        if ly1 < 144 {
            (
                LcdcStatusReg { coincidence_flag: coinc, mode: 2u8, ..st },
                ly1,
                0u16,
                if stat_coinc { 2u8 } else { 0u8 },
            )
        } else {
            (
                LcdcStatusReg { coincidence_flag: coinc, mode: 1u8, ..st },
                ly1,
                0u16,
                if stat_coinc || st.vblank_interrupt_enable { 3u8 } else { 1u8 },
            )
        }
    } else if st.mode == 1 && c1 == 456 {
        if ly == 153 {
            (
                LcdcStatusReg { mode: 2u8, ..st },
                0u8,
                0u16,
                if st.oam_interrupt_enable { 2u8 } else { 0u8 },
            )
        } else {
            (st, w8p(ly + 1), 0u16, 0u8)
        }
    } else {
        (st, ly, c1, 0u8)
    }
}

/// Folding freshly raised bits into an accumulator: a no-op for zero.
pub open spec fn or_bits(x: u8, b: u8) -> u8 {
    if b == 0 {
        x
    } else {
        x | b
    }
}

/// `n` micro-cycles of the scanline machine, folding every raised bit into
/// `acc` in the order the cycles run.
pub open spec fn spec_gpu_ticks(
    st: LcdcStatusReg,
    ly: u8,
    lyc: u8,
    cycles: u16,
    acc: u8,
    n: nat,
) -> (LcdcStatusReg, u8, u16, u8)
    decreases n,
{
    if n == 0 {
        (st, ly, cycles, acc)
    } else {
        let r1 = spec_gpu_tick(st, ly, lyc, cycles);
        spec_gpu_ticks(r1.0, r1.1, lyc, r1.2, or_bits(acc, r1.3), (n - 1) as nat)
    }
}

proof fn lemma_vblank_raise(x: u8)
    by (bit_vector)
    ensures
        ((x | 2) | 1) | 2 == x | 3,
        (x | 2) | 1 == x | 3,
        (x | 1) | 2 == x | 3,
{
}

impl Gpu {
    /// The power-on display: cleared storage, a frame buffer of the fixed
    /// screen size, and default registers.
    pub fn new() -> (r: Self)
        ensures
            gpu_wf(r),
            r.lcd_control == spec_lcd_control_from(0),
            r.lcdc_status == (LcdcStatusReg {
                coincidence_interrupt_enable: false,
                oam_interrupt_enable: false,
                vblank_interrupt_enable: false,
                hblank_interrupt_enable: false,
                coincidence_flag: false,
                mode: 2u8,
            }),
            r.scy == 0 && r.scx == 0 && r.ly == 0 && r.lyc == 0 && r.wy == 0 && r.wx == 0,
            r.cycles == 0,
            forall|i: int| 0 <= i < 0x2000 ==> r.vram@[i] == 0u8,
            forall|i: int| 0 <= i < 0xa0 ==> r.oam@[i] == 0u8,
    {
        let mut vram: Vec<u8> = Vec::new();
        let mut i: usize = 0;
        while i < 0x2000
            invariant
                i <= 0x2000,
                vram@.len() == i,
                forall|j: int| 0 <= j < i ==> vram@[j] == 0u8,
            decreases 0x2000 - i,
        {
            vram.push(0);
            i = i + 1;
        }
        let mut oam: Vec<u8> = Vec::new();
        let mut k: usize = 0;
        while k < 0xa0
            invariant
                k <= 0xa0,
                oam@.len() == k,
                forall|j: int| 0 <= j < k ==> oam@[j] == 0u8,
            decreases 0xa0 - k,
        {
            oam.push(0);
            k = k + 1;
        }
        let mut frame_buffer: Vec<u32> = Vec::new();
        let mut p: usize = 0;
        while p < 160 * 144
            invariant
                p <= 160 * 144,
                frame_buffer@.len() == p,
            decreases 160 * 144 - p,
        {
            frame_buffer.push(0xff7e8429);
            p = p + 1;
        }

        Gpu {
            vram,
            oam,
            frame_buffer,

            lcd_control: LcdControlReg::of_byte(0),
            lcdc_status: LcdcStatusReg::default(),
            scy: 0,
            scx: 0,
            ly: 0,
            lyc: 0,
            wy: 0,
            wx: 0,
            bg_palette_data: PaletteDataReg::default(),
            obj0_palette_data: PaletteDataReg::default(),
            obj1_palette_data: PaletteDataReg::default(),

            cycles: 0,
        }
    }

    /// The video-RAM byte at `addr`.
    pub fn read_vram(&self, addr: u16) -> (r: u8)
        requires
            addr < self.vram@.len(),
        ensures
            r == self.vram@[addr as int],
    {
        self.vram[addr as usize]
    }

    /// Replaces the video-RAM byte at `addr`.
    pub fn write_vram(&mut self, addr: u16, val: u8)
        requires
            addr < old(self).vram@.len(),
        ensures
            final(self).vram@ == old(self).vram@.update(addr as int, val),
            *final(self) == (Gpu { vram: final(self).vram, ..*old(self) }),
    {
        self.vram.set(addr as usize, val);
    }

    /// The object-table byte at `addr`.
    pub fn read_oam(&self, addr: u16) -> (r: u8)
        requires
            addr < self.oam@.len(),
        ensures
            r == self.oam@[addr as int],
    {
        self.oam[addr as usize]
    }

    /// Replaces the object-table byte at `addr`.
    pub fn write_oam(&mut self, addr: u16, val: u8)
        requires
            addr < old(self).oam@.len(),
        ensures
            final(self).oam@ == old(self).oam@.update(addr as int, val),
            *final(self) == (Gpu { oam: final(self).oam, ..*old(self) }),
    {
        self.oam.set(addr as usize, val);
    }

    /// Reads a display register.
    pub fn read_reg(&self, addr: u16) -> (r: u8)
        ensures
            r == spec_gpu_read_reg(*self, addr),
    {
        if addr == 0xff40 {
            self.lcd_control.to_byte()
        } else if addr == 0xff41 {
            self.lcdc_status.to_byte()
        } else if addr == 0xff42 {
            self.scy
        } else if addr == 0xff43 {
            self.scx
        } else if addr == 0xff44 {
            self.ly
        } else if addr == 0xff45 {
            self.lyc
        } else if addr == 0xff47 {
            self.bg_palette_data.to_byte()
        } else if addr == 0xff48 {
            self.obj0_palette_data.to_byte()
        } else if addr == 0xff49 {
            self.obj1_palette_data.to_byte()
        } else if addr == 0xff4a {
            self.wy
        } else if addr == 0xff4b {
            self.wx
        } else {
            0xff
        }
    }

    /// Writes a display register.
    pub fn write_reg(&mut self, addr: u16, val: u8)
        requires
            gpu_wf(*old(self)),
        ensures
            gpu_wf(*final(self)),
            *final(self) == spec_gpu_write_reg(*old(self), addr, val),
    {
        if addr == 0xff40 {
            self.lcd_control = LcdControlReg::of_byte(val);
        } else if addr == 0xff41 {
            self.lcdc_status = LcdcStatusReg::of_byte(val);
        } else if addr == 0xff42 {
            self.scy = val;
        } else if addr == 0xff43 {
            self.scx = val;
        } else if addr == 0xff44 {
            self.ly = val;
        } else if addr == 0xff45 {
            self.lyc = val;
        } else if addr == 0xff47 {
            self.bg_palette_data = PaletteDataReg::of_byte(val);
        } else if addr == 0xff48 {
            self.obj0_palette_data = PaletteDataReg::of_byte(val);
        } else if addr == 0xff49 {
            self.obj1_palette_data = PaletteDataReg::of_byte(val);
        } else if addr == 0xff4a {
            self.wy = val;
        } else if addr == 0xff4b {
            self.wx = val;
        }
    }

    /// Advances the display by `cycles` micro-cycles when the LCD is on:
    /// the mode and scanline run as [`spec_gpu_ticks`] says, the raised
    /// interrupt bits land in the accumulator, storage and the other
    /// registers keep their contents, and the frame buffer keeps its
    /// shape (what the scanlines painted into it is the display's own
    /// affair).  With the LCD off nothing moves.
    pub fn step<D: Device>(&mut self, cycles: u16, device: &mut D, irq: &mut Irq)
        requires
            gpu_wf(*old(self)),
        ensures
            gpu_wf(*final(self)),
            ({
                let r = spec_gpu_ticks(
                    old(self).lcdc_status,
                    old(self).ly,
                    old(self).lyc,
                    old(self).cycles,
                    old(irq)@,
                    if old(self).lcd_control.lcd_control_op {
                        cycles as nat
                    } else {
                        0
                    },
                );
                &&& final(self).lcdc_status == r.0
                &&& final(self).ly == r.1
                &&& final(self).cycles == r.2
                &&& final(irq)@ == r.3
                &&& final(self).vram == old(self).vram
                &&& final(self).oam == old(self).oam
                &&& *final(self) == (Gpu {
                    lcdc_status: r.0,
                    ly: r.1,
                    cycles: r.2,
                    frame_buffer: final(self).frame_buffer,
                    ..*old(self)
                })
            }),
    {
        if self.lcd_control.lcd_control_op {
            let mut i: u16 = 0;
            while i < cycles
                invariant
                    gpu_wf(*self),
                    i <= cycles,
                    spec_gpu_ticks(
                        old(self).lcdc_status,
                        old(self).ly,
                        old(self).lyc,
                        old(self).cycles,
                        old(irq)@,
                        cycles as nat,
                    ) == spec_gpu_ticks(
                        self.lcdc_status,
                        self.ly,
                        self.lyc,
                        self.cycles,
                        irq@,
                        (cycles - i) as nat,
                    ),
                    self.lyc == old(self).lyc,
                    self.vram == old(self).vram,
                    self.oam == old(self).oam,
                    *self == (Gpu {
                        lcdc_status: self.lcdc_status,
                        ly: self.ly,
                        cycles: self.cycles,
                        frame_buffer: self.frame_buffer,
                        ..*old(self)
                    }),
                decreases cycles - i,
            {
                self.inner_step(device, irq);
                i = i + 1;
            }
        }
    }

    /// One micro-cycle, as [`spec_gpu_tick`] says; rendering touches only
    /// the frame buffer's contents.
    fn inner_step<D: Device>(&mut self, device: &mut D, irq: &mut Irq)
        requires
            gpu_wf(*old(self)),
        ensures
            gpu_wf(*final(self)),
            ({
                let r = spec_gpu_tick(
                    old(self).lcdc_status,
                    old(self).ly,
                    old(self).lyc,
                    old(self).cycles,
                );
                &&& final(self).lcdc_status == r.0
                &&& final(self).ly == r.1
                &&& final(self).cycles == r.2
                &&& final(irq)@ == or_bits(old(irq)@, r.3)
                &&& *final(self) == (Gpu {
                    lcdc_status: r.0,
                    ly: r.1,
                    cycles: r.2,
                    frame_buffer: final(self).frame_buffer,
                    ..*old(self)
                })
            }),
    {
        if self.lcdc_status.mode == 2 || self.lcdc_status.mode == 3 {
            self.tick_active(irq);
        } else {
            self.tick_blank(device, irq);
        }
    }

    /// The object-search and drawing modes of one micro-cycle.
    #[verifier::spinoff_prover]
    #[verifier::rlimit(100)]
    fn tick_active(&mut self, irq: &mut Irq)
        requires
            gpu_wf(*old(self)),
            old(self).lcdc_status.mode == 2 || old(self).lcdc_status.mode == 3,
        ensures
            gpu_wf(*final(self)),
            ({
                let r = spec_gpu_tick(
                    old(self).lcdc_status,
                    old(self).ly,
                    old(self).lyc,
                    old(self).cycles,
                );
                &&& final(self).lcdc_status == r.0
                &&& final(self).ly == r.1
                &&& final(self).cycles == r.2
                &&& final(irq)@ == or_bits(old(irq)@, r.3)
                &&& *final(self) == (Gpu {
                    lcdc_status: r.0,
                    ly: r.1,
                    cycles: r.2,
                    frame_buffer: final(self).frame_buffer,
                    ..*old(self)
                })
            }),
    {
        self.cycles = self.cycles.wrapping_add(1);

        if self.lcdc_status.mode == 2 && self.cycles == 85 {
            // End of the object-table search.
            self.lcdc_status.mode = 3;
        } else if self.lcdc_status.mode == 3 && self.cycles == 256 {
            // The cycle before the switch to horizontal blank.
            if self.lcdc_status.hblank_interrupt_enable {
                irq.raise_interrupt(Interrupt::Stat);
            }
        } else if self.lcdc_status.mode == 3 && self.cycles == 260 {
            self.render_background();

            if self.lcd_control.sprite_display {
                self.render_sprites();
            }

            self.lcdc_status.mode = 0;
        }
    }

    /// The blanking modes of one micro-cycle: line advance, coincidence,
    /// vertical-blank entry and the frame handoff.
    #[verifier::spinoff_prover]
    #[verifier::rlimit(100)]
    fn tick_blank<D: Device>(&mut self, device: &mut D, irq: &mut Irq)
        requires
            gpu_wf(*old(self)),
            old(self).lcdc_status.mode != 2,
            old(self).lcdc_status.mode != 3,
        ensures
            gpu_wf(*final(self)),
            ({
                let r = spec_gpu_tick(
                    old(self).lcdc_status,
                    old(self).ly,
                    old(self).lyc,
                    old(self).cycles,
                );
                &&& final(self).lcdc_status == r.0
                &&& final(self).ly == r.1
                &&& final(self).cycles == r.2
                &&& final(irq)@ == or_bits(old(irq)@, r.3)
                &&& *final(self) == (Gpu {
                    lcdc_status: r.0,
                    ly: r.1,
                    cycles: r.2,
                    frame_buffer: final(self).frame_buffer,
                    ..*old(self)
                })
            }),
    {
        self.cycles = self.cycles.wrapping_add(1);

        if self.lcdc_status.mode == 0 && self.cycles == 456 {
            self.ly = self.ly.wrapping_add(1);
            self.cycles = 0;

            self.lcdc_status.coincidence_flag = self.ly == self.lyc;
            let coinc = self.lcdc_status.coincidence_interrupt_enable && self.ly == self.lyc;
            if coinc {
                irq.raise_interrupt(Interrupt::Stat);
            }

            if self.ly < 144 {
                self.lcdc_status.mode = 2;
            } else {
                self.lcdc_status.mode = 1;

                proof {
                    lemma_vblank_raise(old(irq)@);
                }
                irq.raise_interrupt(Interrupt::VBlank);
                if self.lcdc_status.vblank_interrupt_enable {
                    irq.raise_interrupt(Interrupt::Stat);
                }

                device.set_frame_buffer(self.frame_buffer.as_slice());
            }
        } else if self.lcdc_status.mode == 1 {
            if self.cycles == 456 {
                self.cycles = 0;

                if self.ly == 153 {
                    self.lcdc_status.mode = 2;
                    if self.lcdc_status.oam_interrupt_enable {
                        irq.raise_interrupt(Interrupt::Stat);
                    }
                    self.ly = 0;
                } else {
                    self.ly = self.ly.wrapping_add(1);
                }
            }
        }
    }

    /// Screen width in pixels.
    pub fn get_width(&self) -> (r: usize)
        ensures
            r == 160,
    {
        WIDTH
    }

    /// Screen height in pixels.
    pub fn get_height(&self) -> (r: usize)
        ensures
            r == 144,
    {
        HEIGHT
    }

    /// Paints the background row of the current scanline into the frame
    /// buffer.  Which colours it paints is outside this core's contract;
    /// rows past the visible screen are left alone.
    #[verifier::spinoff_prover]
    #[verifier::rlimit(100)]
    fn render_background(&mut self)
        requires
            gpu_wf(*old(self)),
        ensures
            gpu_wf(*final(self)),
            *final(self) == (Gpu { frame_buffer: final(self).frame_buffer, ..*old(self) }),
    {
        if self.ly as usize >= HEIGHT {
            return ;
        }
        let background_row = self.ly.wrapping_add(self.scy);

        let mut i: usize = 0;
        while i < WIDTH
            invariant
                gpu_wf(*self),
                self.ly < 144,
                background_row == w8p(old(self).ly + old(self).scy) || background_row == old(
                    self,
                ).ly + old(self).scy,
                *self == (Gpu { frame_buffer: self.frame_buffer, ..*old(self) }),
            decreases WIDTH - i,
        {
            let background_col = self.scx.wrapping_add(i as u8);

            let tile_offset = self.get_background_tile_offset(
                background_row / 8,
                background_col / 8,
            );
            let colour = self.get_tile_pixel(tile_offset, background_row % 8, background_col % 8);

            self.frame_buffer.set((self.ly as usize) * WIDTH + i, colour);
            i = i + 1;
        }
    }

    /// Paints the sprites crossing the current scanline.  Pixels that fall
    /// off the screen's edges are dropped.
    #[verifier::spinoff_prover]
    #[verifier::rlimit(100)]
    fn render_sprites(&mut self)
        requires
            gpu_wf(*old(self)),
        ensures
            gpu_wf(*final(self)),
            *final(self) == (Gpu { frame_buffer: final(self).frame_buffer, ..*old(self) }),
    {
        if self.ly as usize >= HEIGHT {
            return ;
        }
        let sprite_height: u16 = if self.lcd_control.sprite_size {
            16
        } else {
            8
        };
        let ly = self.ly as u16;

        let mut s: usize = 0;
        while s < 40
            invariant
                gpu_wf(*self),
                self.ly < 144,
                ly == self.ly as u16,
                sprite_height == (if self.lcd_control.sprite_size { 16u16 } else { 8u16 }),
                *self == (Gpu { frame_buffer: self.frame_buffer, ..*old(self) }),
            decreases 40 - s,
        {
            // Sprite coordinates are stored offset by 16 and 8.
            let sprite_y_raw = self.oam[s * 4] as u16;
            let covered = ly + 16 >= sprite_y_raw && ly + 16 < sprite_y_raw + sprite_height;

            if covered {
                let sprite_row = (ly + 16 - sprite_y_raw) as usize;
                let sprite_x_raw = self.oam[s * 4 + 1] as usize;
                let tile_index = self.oam[s * 4 + 2] as usize;
                let tile_offset = if self.lcd_control.sprite_size {
                    tile_index * 32
                } else {
                    tile_index * 16
                };

                let sprite_flags = self.oam[s * 4 + 3];
                let flip_horz = sprite_flags & 0x20 != 0;

                let mut i: usize = 0;
                while i < 8
                    invariant
                        gpu_wf(*self),
                        self.ly < 144,
                        tile_offset + 31 < 0x2000,
                        sprite_row < 16,
                        sprite_x_raw < 256,
                        i <= 8,
                        *self == (Gpu { frame_buffer: self.frame_buffer, ..*old(self) }),
                    decreases 8 - i,
                {
                    let x = if flip_horz {
                        7 - i
                    } else {
                        i
                    };
                    let colour = self.get_sprite_pixel(tile_offset, sprite_row, x);

                    // The stored x is offset by 8; keep only pixels that
                    // land on the screen.
                    if sprite_x_raw + i >= 8 && sprite_x_raw + i - 8 < WIDTH {
                        let px = sprite_x_raw + i - 8;
                        self.frame_buffer.set((self.ly as usize) * WIDTH + px, colour);
                    }
                    i = i + 1;
                }
            }
            s = s + 1;
        }
    }

    /// The video-RAM offset of the background tile at the given row and
    /// column of the tile map.
    fn get_background_tile_offset(&self, row: u8, col: u8) -> (r: usize)
        requires
            gpu_wf(*self),
            row < 32,
            col < 32,
        ensures
            r + 31 < 0x2000,
    {
        let tile_idx_base: usize = if self.lcd_control.bg_tile_map_display {
            0x1c00
        } else {
            0x1800
        };
        let tile_idx_offset = (row as usize) * 32 + (col as usize);
        let tile_index = self.vram[tile_idx_base + tile_idx_offset] as usize;

        if self.lcd_control.bg_win_tile_data {
            tile_index * 16
        } else {
            // Signed tile indices address the second tile-data block.
            if tile_index >= 128 {
                tile_index * 16
            } else {
                (tile_index + 256) * 16
            }
        }
    }

    /// One background pixel out of a tile.
    fn get_tile_pixel(&self, tile_offset: usize, row: u8, col: u8) -> (r: u32)
        requires
            gpu_wf(*self),
            tile_offset + 31 < 0x2000,
            row < 16,
            col < 8,
    {
        let offset = tile_offset + (row as usize) * 2;

        let hi_byte = self.vram[offset + 1];
        let lo_byte = self.vram[offset];
        let sh: u8 = 7 - col;
        proof {
            lemma_low_bit(hi_byte, sh);
            lemma_low_bit(lo_byte, sh);
        }
        let upper_col = (hi_byte >> sh) & 1;
        let lower_col = (lo_byte >> sh) & 1;
        let tile_colour = upper_col * 2 + lower_col;

        let col_index = if tile_colour == 0 {
            self.bg_palette_data.col0_shade
        } else if tile_colour == 1 {
            self.bg_palette_data.col1_shade
        } else if tile_colour == 2 {
            self.bg_palette_data.col2_shade
        } else {
            self.bg_palette_data.col3_shade
        };
        colour_of(col_index)
    }

    /// One sprite pixel out of a tile.
    fn get_sprite_pixel(&self, tile_offset: usize, row: usize, col: usize) -> (r: u32)
        requires
            gpu_wf(*self),
            tile_offset + 31 < 0x2000,
            row < 16,
            col < 8,
    {
        let offset = tile_offset + row * 2;

        let hi_byte = self.vram[offset + 1];
        let lo_byte = self.vram[offset];
        let sh: u8 = (7 - col) as u8;
        proof {
            lemma_low_bit(hi_byte, sh);
            lemma_low_bit(lo_byte, sh);
        }
        let upper_col = (hi_byte >> sh) & 1;
        let lower_col = (lo_byte >> sh) & 1;
        let tile_colour = upper_col * 2 + lower_col;

        let col_index = if tile_colour == 0 {
            self.obj0_palette_data.col0_shade
        } else if tile_colour == 1 {
            self.obj0_palette_data.col1_shade
        } else if tile_colour == 2 {
            self.obj0_palette_data.col2_shade
        } else {
            self.obj0_palette_data.col3_shade
        };
        colour_of(col_index)
    }
}

proof fn lemma_low_bit(v: u8, s: u8)
    by (bit_vector)
    requires
        s < 8,
    ensures
        (v >> s) & 1 < 2,
{
}

/// The screen colour of each of the four shades.
fn colour_of(idx: u8) -> u32 {
    if idx == 0 {
        0xff7e8429
    } else if idx == 1 {
        0xff527a4b
    } else if idx == 2 {
        0xff315d4b
    } else {
        0xff29473e
    }
}

} // verus!
