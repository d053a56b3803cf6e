//! The system bus: address decoding, DMA arbitration, interrupt
//! aggregation, and per-step peripheral advancement.  A flat test bus for
//! exercising the processor alone lives here as well.

use vstd::prelude::*;
use std::collections::HashSet;
use crate::apu::{Apu, apu_wf, spec_apu_read_reg, spec_apu_write_reg, spec_apu_run};
use crate::bootrom::{Bootrom, spec_bootrom_read};
use crate::bus::Bus;
use crate::cartridge::{Cartridge, cart_wf, spec_cart_read, spec_cart_write};
use crate::device::Device;
use crate::events::Event;
use crate::gamepad::{Gamepad, spec_gamepad_read};
use crate::gpu::{Gpu, gpu_wf, spec_gpu_read_reg, spec_gpu_write_reg, spec_gpu_ticks};
use crate::interrupt::Irq;
use crate::memory::Memory;
use crate::nums::{w_add, hw};
use crate::timer::{Timer, spec_timer_read_reg, spec_timer_write_reg, spec_timer_ticks};

verus! {

broadcast use vstd::std_specs::hash::group_hash_axioms;

/// The DMA transfer's phase: idle, the two setup cycles after a trigger,
/// the two reset cycles of a restart, or mid-transfer at an index.
#[derive(Debug, Clone, Copy, PartialEq, Eq, Structural)]
pub enum DmaState {
    Inactive,
    Setup1,
    Setup2,
    Reset1,
    Reset2,
    Active(u16),
}

/// Whether the transfer occupies the bus (reads contend and the object
/// table is locked); the setup phases do not.
pub open spec fn dma_busy(st: DmaState) -> bool {
    !(st == DmaState::Inactive || st == DmaState::Setup1 || st == DmaState::Setup2)
}

/// The three physical bus segments contention is decided over: the low
/// external bus, the video-RAM bus, and the high external bus.
pub open spec fn same_bus_segment(a: u16, b: u16) -> bool {
    (a < 0x8000 && b < 0x8000) || (0x8000 <= a && a < 0xa000 && 0x8000 <= b && b < 0xa000) || (
    0xa000 <= a && a < 0xfe00 && 0xa000 <= b && b < 0xfe00)
}

/// The address the transfer currently occupies: the source itself during
/// the reset phases, the next byte to fetch while active.
pub open spec fn dma_current_source(src: u16, st: DmaState) -> u16 {
    match st {
        DmaState::Active(index) => w_add(src, w_add(index, 1)),
        _ => src,
    }
}

/// The system bus.
pub struct Interconnect {
    pub boot_rom: Bootrom,
    pub cartridge: Cartridge,
    pub gpu: Gpu,
    pub apu: Apu,
    pub timer: Timer,
    pub gamepad: Gamepad,

    pub boot_rom_active: bool,

    pub internal_ram: Memory,
    pub high_ram: Memory,
    pub if_register: u8,
    pub ie_register: u8,

    pub serial_transfer_data: u8,
    pub serial_control: u8,

    pub trigger_watchpoint: bool,
    pub watchpoints: HashSet<u16>,

    pub dma_source: u16,
    pub dma_slot: u8,
    pub dma_state: DmaState,
}

/// Well-formedness of the whole bus: each store has its fixed size and an
/// active transfer index stays within the object table.
pub open spec fn ic_wf(i: Interconnect) -> bool {
    &&& gpu_wf(i.gpu)
    &&& apu_wf(i.apu)
    &&& cart_wf(i.cartridge)
    &&& i.internal_ram@.len() == 0x2000
    &&& i.high_ram@.len() == 0x7f
    &&& (i.dma_state matches DmaState::Active(k) ==> k <= 159)
}

/// The plain address decode, ignoring DMA contention: which byte each
/// address reads, with the transfer phase `st` and object table `oam`
/// taken as parameters because a running transfer changes both.
/// Unmapped addresses read as all-ones.
pub open spec fn spec_inner_read_d(i: Interconnect, st: DmaState, oam: Seq<u8>, addr: u16) -> u8 {
    if addr < 0x100 && i.boot_rom_active {
        spec_bootrom_read(i.boot_rom@, addr)
    } else if addr <= 0x7fff {
        spec_cart_read(i.cartridge, addr)
    } else if addr <= 0x9fff {
        i.gpu.vram@[addr - 0x8000]
    } else if addr <= 0xbfff {
        spec_cart_read(i.cartridge, addr)
    } else if addr <= 0xdfff {
        i.internal_ram@[addr - 0xc000]
    } else if addr <= 0xfdff {
        i.internal_ram@[addr - 0xe000]
    } else if addr <= 0xfe9f {
        if dma_busy(st) {
            0xff
        } else {
            oam[addr - 0xfe00]
        }
    } else if addr == 0xff00 {
        spec_gamepad_read(i.gamepad)
    } else if addr == 0xff01 {
        0x00
    } else if addr == 0xff02 {
        0x7e
    } else if 0xff04 <= addr && addr <= 0xff07 {
        spec_timer_read_reg(i.timer, addr)
    } else if addr == 0xff0f {
        i.if_register
    } else if 0xff10 <= addr && addr <= 0xff3f {
        spec_apu_read_reg(i.apu, addr)
    } else if 0xff40 <= addr && addr <= 0xff4f {
        spec_gpu_read_reg(i.gpu, addr)
    } else if 0xff80 <= addr && addr <= 0xfffe {
        i.high_ram@[addr - 0xff80]
    } else if addr == 0xffff {
        i.ie_register
    } else {
        0xff
    }
}

/// The plain decode of the bus as it stands.
pub open spec fn spec_inner_read(i: Interconnect, addr: u16) -> u8 {
    spec_inner_read_d(i, i.dma_state, i.gpu.oam@, addr)
}

/// What a processor read returns: while a transfer occupies the bus and
/// the requested address shares its physical segment, the transfer's
/// latched byte; otherwise the plain decode.
pub open spec fn spec_read(i: Interconnect, addr: u16) -> u8 {
    if dma_busy(i.dma_state) && same_bus_segment(addr, dma_current_source(i.dma_source, i.dma_state)) {
        i.dma_slot
    } else {
        spec_inner_read(i, addr)
    }
}

/// How a processor write relates the bus after to the bus before.  Every
/// write first checks the watchpoint set; then the address decode routes
/// it.  Writes to unmapped addresses, and object-table writes while a
/// transfer is in flight, are discarded.
pub open spec fn spec_write(i: Interconnect, addr: u16, val: u8, post: Interconnect) -> bool {
    let t = i.trigger_watchpoint || i.watchpoints@.contains(addr);
    if addr <= 0x7fff || (0xa000 <= addr && addr <= 0xbfff) {
        &&& spec_cart_write(i.cartridge, addr, val, post.cartridge)
        &&& post == Interconnect { cartridge: post.cartridge, trigger_watchpoint: t, ..i }
    } else if addr <= 0x9fff {
        &&& post.gpu.vram@ == i.gpu.vram@.update(addr - 0x8000, val)
        &&& post.gpu == Gpu { vram: post.gpu.vram, ..i.gpu }
        &&& post == Interconnect { gpu: post.gpu, trigger_watchpoint: t, ..i }
    } else if addr <= 0xdfff {
        &&& post.internal_ram@ == i.internal_ram@.update(addr - 0xc000, val)
        &&& post == Interconnect { internal_ram: post.internal_ram, trigger_watchpoint: t, ..i }
    } else if addr <= 0xfdff {
        &&& post.internal_ram@ == i.internal_ram@.update(addr - 0xe000, val)
        &&& post == Interconnect { internal_ram: post.internal_ram, trigger_watchpoint: t, ..i }
    } else if 0xff80 <= addr && addr <= 0xfffe {
        &&& post.high_ram@ == i.high_ram@.update(addr - 0xff80, val)
        &&& post == Interconnect { high_ram: post.high_ram, trigger_watchpoint: t, ..i }
    } else if addr <= 0xfe9f {
        if i.dma_state == DmaState::Inactive {
            &&& post.gpu.oam@ == i.gpu.oam@.update(addr - 0xfe00, val)
            &&& post.gpu == Gpu { oam: post.gpu.oam, ..i.gpu }
            &&& post == Interconnect { gpu: post.gpu, trigger_watchpoint: t, ..i }
        } else {
            post == Interconnect { trigger_watchpoint: t, ..i }
        }
    } else if addr == 0xff00 {
        post == Interconnect {
            gamepad: Gamepad { p15: val & 0x20 != 0, p14: val & 0x10 != 0, ..i.gamepad },
            trigger_watchpoint: t,
            ..i
        }
    } else if addr == 0xff01 {
        post == Interconnect { serial_transfer_data: val, trigger_watchpoint: t, ..i }
    } else if addr == 0xff02 {
        post == Interconnect { serial_control: val, trigger_watchpoint: t, ..i }
    } else if 0xff04 <= addr && addr <= 0xff07 {
        post == Interconnect {
            timer: spec_timer_write_reg(i.timer, addr, val),
            trigger_watchpoint: t,
            ..i
        }
    } else if addr == 0xff0f {
        post == Interconnect { if_register: val, trigger_watchpoint: t, ..i }
    } else if 0xff10 <= addr && addr <= 0xff3f {
        &&& spec_apu_write_reg(i.apu, addr, val, post.apu)
        &&& post == Interconnect { apu: post.apu, trigger_watchpoint: t, ..i }
    } else if addr == 0xff46 {
        // The DMA trigger: latch the source page and start a transfer, or
        // force the reset detour when one is already running.
        post == Interconnect {
            dma_source: (val * 256) as u16,
            dma_state: if i.dma_state != DmaState::Inactive {
                DmaState::Reset1
            } else {
                DmaState::Setup1
            },
            trigger_watchpoint: t,
            ..i
        }
    } else if 0xff40 <= addr && addr <= 0xff4b {
        post == Interconnect { gpu: spec_gpu_write_reg(i.gpu, addr, val), trigger_watchpoint: t, ..i }
    } else if addr == 0xff50 {
        post == Interconnect { boot_rom_active: false, trigger_watchpoint: t, ..i }
    } else if addr == 0xffff {
        post == Interconnect { ie_register: val, trigger_watchpoint: t, ..i }
    } else {
        post == Interconnect { trigger_watchpoint: t, ..i }
    }
}

/// One micro-cycle of the transfer machine, over the parts it can touch:
/// the phase, the latched byte, and the object table.  Reads go through
/// the plain decode of `i` with the current phase and table.
pub open spec fn spec_dma_tick(i: Interconnect, st: DmaState, slot: u8, oam: Seq<u8>) -> (
    DmaState,
    u8,
    Seq<u8>,
) {
    match st {
        DmaState::Inactive => (st, slot, oam),
        DmaState::Setup1 => (DmaState::Setup2, slot, oam),
        DmaState::Reset1 => (DmaState::Reset2, slot, oam),
        DmaState::Setup2 | DmaState::Reset2 => (
            DmaState::Active(0),
            spec_inner_read_d(i, st, oam, i.dma_source),
            oam,
        ),
        DmaState::Active(index) => {
            let slot2 = spec_inner_read_d(i, st, oam, w_add(i.dma_source, w_add(index, 1)));
            let oam2 = if index < 0xa0 {
                oam.update(index as int, slot)
            } else {
                oam
            };
            (
                if index >= 159 {
                    DmaState::Inactive
                } else {
                    DmaState::Active((index + 1) as u16)
                },
                slot2,
                oam2,
            )
        }
    }
}

/// `n` micro-cycles of the transfer machine.
pub open spec fn spec_dma_ticks(i: Interconnect, st: DmaState, slot: u8, oam: Seq<u8>, n: nat) -> (
    DmaState,
    u8,
    Seq<u8>,
)
    decreases n,
{
    if n == 0 {
        (st, slot, oam)
    } else {
        let r1 = spec_dma_tick(i, st, slot, oam);
        spec_dma_ticks(i, r1.0, r1.1, r1.2, (n - 1) as nat)
    }
}

/// The plain decode ignores the transfer-owned parts, so two bus states
/// that differ only in them decode alike.
proof fn lemma_inner_read_frame(
    i1: Interconnect,
    i2: Interconnect,
    st: DmaState,
    oam: Seq<u8>,
    addr: u16,
)
    requires
        i2 == (Interconnect {
            gpu: i2.gpu,
            dma_state: i2.dma_state,
            dma_slot: i2.dma_slot,
            ..i1
        }),
        i2.gpu == (Gpu { oam: i2.gpu.oam, ..i1.gpu }),
    ensures
        spec_inner_read_d(i1, st, oam, addr) == spec_inner_read_d(i2, st, oam, addr),
{
}

/// One transfer micro-cycle likewise.
proof fn lemma_dma_tick_frame(
    i1: Interconnect,
    i2: Interconnect,
    st: DmaState,
    slot: u8,
    oam: Seq<u8>,
)
    requires
        i2 == (Interconnect {
            gpu: i2.gpu,
            dma_state: i2.dma_state,
            dma_slot: i2.dma_slot,
            ..i1
        }),
        i2.gpu == (Gpu { oam: i2.gpu.oam, ..i1.gpu }),
        i2.dma_source == i1.dma_source,
    ensures
        spec_dma_tick(i1, st, slot, oam) == spec_dma_tick(i2, st, slot, oam),
{
    match st {
        DmaState::Setup2 | DmaState::Reset2 => {
            lemma_inner_read_frame(i1, i2, st, oam, i1.dma_source);
        }
        DmaState::Active(index) => {
            lemma_inner_read_frame(i1, i2, st, oam, w_add(i1.dma_source, w_add(index, 1)));
        }
        _ => {}
    }
}

impl Interconnect {
    /// A bus wired to the given boot ROM and cartridge, with every
    /// peripheral at power-on and no transfer running.
    pub fn new(bootrom: Bootrom, cartridge: Cartridge) -> (r: Interconnect)
        requires
            cart_wf(cartridge),
        ensures
            ic_wf(r),
            r.boot_rom == bootrom,
            r.cartridge == cartridge,
            r.boot_rom_active,
            r.if_register == 0 && r.ie_register == 0,
            r.dma_state == DmaState::Inactive,
            r.dma_source == 0 && r.dma_slot == 0,
            !r.trigger_watchpoint,
            r.watchpoints@ == Set::<u16>::empty(),
            forall|a: int| 0 <= a < 0x2000 ==> r.internal_ram@[a] == 0u8,
            r.internal_ram@.len() == 0x2000,
            r.high_ram@.len() == 0x7f,
    {
        Interconnect {
            boot_rom: bootrom,
            cartridge,
            gpu: Gpu::new(),
            apu: Apu::new(),
            timer: Timer::default(),
            gamepad: Gamepad::new(),

            boot_rom_active: true,

            internal_ram: Memory::new(0x2000),
            high_ram: Memory::new(0x7f),

            if_register: 0,
            ie_register: 0,

            serial_transfer_data: 0,
            serial_control: 0,

            watchpoints: HashSet::new(),
            trigger_watchpoint: false,

            dma_source: 0,
            dma_slot: 0,
            dma_state: DmaState::Inactive,
        }
    }

    /// Reads one byte as the processor sees the bus, contention included.
    pub fn read_byte(&self, addr: u16) -> (r: u8)
        requires
            ic_wf(*self),
        ensures
            r == spec_read(*self, addr),
    {
        let busy = match self.dma_state {
            DmaState::Reset1 | DmaState::Reset2 | DmaState::Active(_) => true,
            _ => false,
        };
        if busy {
            let offset: u16 = match self.dma_state {
                DmaState::Active(index) => index.wrapping_add(1),
                _ => 0,
            };
            let dma_source = self.dma_source.wrapping_add(offset);

            if (addr < 0x8000 && dma_source < 0x8000) || (addr >= 0x8000 && addr < 0xa000
                && dma_source >= 0x8000 && dma_source < 0xa000) || (addr >= 0xa000 && addr < 0xfe00
                && dma_source >= 0xa000 && dma_source < 0xfe00) {
                return self.dma_slot;
            }
        }

        self.inner_read_byte(addr)
    }

    /// Writes one byte as the processor sees the bus.
    pub fn write_byte(&mut self, addr: u16, val: u8)
        requires
            ic_wf(*old(self)),
        ensures
            ic_wf(*final(self)),
            spec_write(*old(self), addr, val, *final(self)),
    {
        if self.watchpoints.contains(&addr) {
            self.trigger_watchpoint = true;
        }

        if addr <= 0x7fff {
            self.cartridge.write(addr, val);
        } else if addr <= 0x9fff {
            self.gpu.write_vram(addr - 0x8000, val);
        } else if addr <= 0xbfff {
            self.cartridge.write(addr, val);
        } else if addr <= 0xdfff {
            self.internal_ram.write_byte(addr - 0xc000, val);
        } else if addr <= 0xfdff {
            self.internal_ram.write_byte(addr - 0xe000, val);
        } else if addr >= 0xff80 && addr <= 0xfffe {
            self.high_ram.write_byte(addr - 0xff80, val);
        } else if addr <= 0xfe9f {
            let idle = match self.dma_state {
                DmaState::Inactive => true,
                _ => false,
            };
            if idle {
                self.gpu.write_oam(addr - 0xfe00, val);
            }
        } else if addr == 0xff00 {
            self.gamepad.write_reg(val);
        } else if addr == 0xff01 {
            self.serial_transfer_data = val;
        } else if addr == 0xff02 {
            self.serial_control = val;
        } else if addr >= 0xff04 && addr <= 0xff07 {
            self.timer.write_reg(addr, val);
        } else if addr == 0xff0f {
            self.if_register = val;
        } else if addr >= 0xff10 && addr <= 0xff3f {
            self.apu.write_reg(addr, val);
        } else if addr == 0xff46 {
            self.dma_source = (val as u16) * 256;
            let idle = match self.dma_state {
                DmaState::Inactive => true,
                _ => false,
            };
            if !idle {
                self.dma_state = DmaState::Reset1;
            } else {
                self.dma_state = DmaState::Setup1;
            }
        } else if addr >= 0xff40 && addr <= 0xff4b {
            self.gpu.write_reg(addr, val);
        } else if addr == 0xff50 {
            self.boot_rom_active = false;
        } else if addr == 0xffff {
            self.ie_register = val;
        }
    }

    /// Reads the halfword at `addr`: low byte there, high byte one above.
    pub fn read_halfword(&self, addr: u16) -> (r: u16)
        requires
            ic_wf(*self),
        ensures
            r == hw(spec_read(*self, w_add(addr, 1)), spec_read(*self, addr)),
    {
        let lo = self.read_byte(addr);
        let hi = self.read_byte(addr.wrapping_add(1));
        (hi as u16) * 256 + (lo as u16)
    }

    /// Writes the halfword at `addr`: low byte there, high byte one above.
    pub fn write_halfword(&mut self, addr: u16, val: u16)
        requires
            ic_wf(*old(self)),
        ensures
            ic_wf(*final(self)),
            exists|mid: Interconnect|
                #[trigger] spec_write(*old(self), addr, crate::nums::lo8(val), mid) && spec_write(
                    mid,
                    w_add(addr, 1),
                    crate::nums::hi8(val),
                    *final(self),
                ),
    {
        self.write_byte(addr, (val % 256) as u8);
        let ghost mid = *self;
        self.write_byte(addr.wrapping_add(1), (val / 256) as u8);
        proof {
            assert(spec_write(*old(self), addr, crate::nums::lo8(val), mid) && spec_write(
                mid,
                w_add(addr, 1),
                crate::nums::hi8(val),
                *self,
            ));
        }
    }

    fn inner_read_byte(&self, addr: u16) -> (r: u8)
        requires
            ic_wf(*self),
        ensures
            r == spec_inner_read(*self, addr),
    {
        if addr < 0x100 && self.boot_rom_active {
            self.boot_rom.read_byte(addr)
        } else if addr <= 0x7fff {
            self.cartridge.read_byte(addr)
        } else if addr <= 0x9fff {
            self.gpu.read_vram(addr - 0x8000)
        } else if addr <= 0xbfff {
            self.cartridge.read_byte(addr)
        } else if addr <= 0xdfff {
            self.internal_ram.read_byte(addr - 0xc000)
        } else if addr <= 0xfdff {
            self.internal_ram.read_byte(addr - 0xe000)
        } else if addr <= 0xfe9f {
            let busy = match self.dma_state {
                DmaState::Reset1 | DmaState::Reset2 | DmaState::Active(_) => true,
                _ => false,
            };
            if busy {
                0xff
            } else {
                self.gpu.read_oam(addr - 0xfe00)
            }
        } else if addr == 0xff00 {
            self.gamepad.read_reg()
        } else if addr == 0xff01 {
            0x00
        } else if addr == 0xff02 {
            0x7e
        } else if addr >= 0xff04 && addr <= 0xff07 {
            self.timer.read_reg(addr)
        } else if addr == 0xff0f {
            self.if_register
        } else if addr >= 0xff10 && addr <= 0xff3f {
            self.apu.read_reg(addr)
        } else if addr >= 0xff40 && addr <= 0xff4f {
            self.gpu.read_reg(addr)
        } else if addr >= 0xff80 && addr <= 0xfffe {
            self.high_ram.read_byte(addr - 0xff80)
        } else if addr == 0xffff {
            self.ie_register
        } else {
            0xff
        }
    }

    /// One transfer micro-cycle.
    fn dma_tick(&mut self)
        requires
            ic_wf(*old(self)),
        ensures
            ic_wf(*final(self)),
            ({
                let r = spec_dma_tick(
                    *old(self),
                    old(self).dma_state,
                    old(self).dma_slot,
                    old(self).gpu.oam@,
                );
                &&& final(self).dma_state == r.0
                &&& final(self).dma_slot == r.1
                &&& final(self).gpu.oam@ == r.2
                &&& final(self).gpu == (Gpu { oam: final(self).gpu.oam, ..old(self).gpu })
                &&& *final(self) == (Interconnect {
                    gpu: final(self).gpu,
                    dma_state: final(self).dma_state,
                    dma_slot: final(self).dma_slot,
                    ..*old(self)
                })
            }),
    {
        match self.dma_state {
            DmaState::Inactive => {}
            DmaState::Setup1 => {
                self.dma_state = DmaState::Setup2;
            }
            DmaState::Reset1 => {
                self.dma_state = DmaState::Reset2;
            }
            DmaState::Setup2 | DmaState::Reset2 => {
                self.dma_slot = self.inner_read_byte(self.dma_source);
                self.dma_state = DmaState::Active(0);
            }
            DmaState::Active(index) => {
                let val = self.dma_slot;
                self.dma_slot = self.inner_read_byte(
                    self.dma_source.wrapping_add(index.wrapping_add(1)),
                );
                self.gpu.write_oam(index, val);

                if index >= 159 {
                    self.dma_state = DmaState::Inactive;
                } else {
                    self.dma_state = DmaState::Active(index + 1);
                }
            }
        }
    }

    /// Advances the whole bus by the cycles one instruction consumed: the
    /// transfer machine ticks once per four cycles, then every peripheral
    /// advances by the full count, the interrupts they raised are folded
    /// into the request register with its three constant high bits, and a
    /// watchpoint hit during the period is pushed to the event sink.
    pub fn step<D: Device>(&mut self, cycles: u16, device: &mut D, events: &mut Vec<Event>)
        requires
            ic_wf(*old(self)),
        ensures
            ic_wf(*final(self)),
            ({
                let d = spec_dma_ticks(
                    *old(self),
                    old(self).dma_state,
                    old(self).dma_slot,
                    old(self).gpu.oam@,
                    (cycles / 4) as nat,
                );
                let g = spec_gpu_ticks(
                    old(self).gpu.lcdc_status,
                    old(self).gpu.ly,
                    old(self).gpu.lyc,
                    old(self).gpu.cycles,
                    0u8,
                    if old(self).gpu.lcd_control.lcd_control_op {
                        cycles as nat
                    } else {
                        0
                    },
                );
                let t = spec_timer_ticks(old(self).timer, cycles as nat);
                let tb = if t.1 {
                    g.3 | 0x04u8
                } else {
                    g.3
                };
                &&& final(self).dma_state == d.0
                &&& final(self).dma_slot == d.1
                &&& final(self).gpu.oam@ == d.2
                &&& final(self).apu == spec_apu_run(
                    old(self).apu,
                    (old(self).apu.cycles + cycles) as nat,
                )
                &&& final(self).timer == t.0
                &&& final(self).gpu.lcdc_status == g.0
                &&& final(self).gpu.ly == g.1
                &&& final(self).gpu.cycles == g.2
                &&& final(self).gpu.vram == old(self).gpu.vram
                &&& final(self).gpu == (Gpu {
                    lcdc_status: g.0,
                    ly: g.1,
                    cycles: g.2,
                    oam: final(self).gpu.oam,
                    frame_buffer: final(self).gpu.frame_buffer,
                    ..old(self).gpu
                })
                &&& ({
                    let fi = final(self).if_register;
                    fi == (old(self).if_register | (tb | 0xe0)) || fi == (old(self).if_register | (
                    (tb | 0x10) | 0xe0))
                })
                &&& final(self).gamepad.p15 == old(self).gamepad.p15
                &&& final(self).gamepad.p14 == old(self).gamepad.p14
                &&& !final(self).trigger_watchpoint
                &&& final(events)@ == if old(self).trigger_watchpoint {
                    old(events)@.push(Event::Watchpoint)
                } else {
                    old(events)@
                }
                &&& *final(self) == (Interconnect {
                    gpu: final(self).gpu,
                    apu: final(self).apu,
                    timer: final(self).timer,
                    gamepad: final(self).gamepad,
                    if_register: final(self).if_register,
                    dma_state: d.0,
                    dma_slot: d.1,
                    trigger_watchpoint: false,
                    ..*old(self)
                })
            }),
    {
        let ticks = cycles / 4;
        let mut k: u16 = 0;
        while k < ticks
            invariant
                ic_wf(*self),
                k <= ticks,
                spec_dma_ticks(
                    *old(self),
                    old(self).dma_state,
                    old(self).dma_slot,
                    old(self).gpu.oam@,
                    ticks as nat,
                ) == spec_dma_ticks(
                    *self,
                    self.dma_state,
                    self.dma_slot,
                    self.gpu.oam@,
                    (ticks - k) as nat,
                ),
                self.gpu == (Gpu { oam: self.gpu.oam, ..old(self).gpu }),
                *self == (Interconnect {
                    gpu: self.gpu,
                    dma_state: self.dma_state,
                    dma_slot: self.dma_slot,
                    ..*old(self)
                }),
            decreases ticks - k,
        {
            let ghost prev = *self;
            let ghost rem = (ticks - k) as nat;
            self.dma_tick();
            proof {
                assert(spec_dma_ticks(prev, prev.dma_state, prev.dma_slot, prev.gpu.oam@, rem)
                    == spec_dma_ticks(
                    prev,
                    self.dma_state,
                    self.dma_slot,
                    self.gpu.oam@,
                    (rem - 1) as nat,
                ));
                lemma_dma_ticks_frame(
                    prev,
                    *self,
                    self.dma_state,
                    self.dma_slot,
                    self.gpu.oam@,
                    (rem - 1) as nat,
                );
            }
            k = k + 1;
        }

        let mut irq = Irq::default();

        self.apu.step(cycles);
        self.gpu.step(cycles, device, &mut irq);
        self.timer.step(cycles, &mut irq);
        self.gamepad.step(cycles, device, &mut irq);

        let bits = irq.get_if();
        self.if_register = self.if_register | bits;

        if self.trigger_watchpoint {
            events.push(Event::Watchpoint);
            self.trigger_watchpoint = false;
        }
    }

    /// Screen width in pixels.
    pub fn get_width(&self) -> (r: usize)
        ensures
            r == 160,
    {
        self.gpu.get_width()
    }

    /// Screen height in pixels.
    pub fn get_height(&self) -> (r: usize)
        ensures
            r == 144,
    {
        self.gpu.get_height()
    }

    /// The timer, for inspection.
    pub fn get_timer(&self) -> (r: &Timer)
        ensures
            r == self.timer,
    {
        &self.timer
    }
}

/// A run of transfer micro-cycles reads nothing the transfer itself owns,
/// so it is insensitive to the transfer-owned parts of the bus value it
/// reads through.
proof fn lemma_dma_ticks_frame(
    i1: Interconnect,
    i2: Interconnect,
    st: DmaState,
    slot: u8,
    oam: Seq<u8>,
    n: nat,
)
    requires
        i2 == (Interconnect {
            gpu: i2.gpu,
            dma_state: i2.dma_state,
            dma_slot: i2.dma_slot,
            ..i1
        }),
        i2.gpu == (Gpu { oam: i2.gpu.oam, ..i1.gpu }),
    ensures
        spec_dma_ticks(i1, st, slot, oam, n) == spec_dma_ticks(i2, st, slot, oam, n),
    decreases n,
{
    if n > 0 {
        lemma_dma_tick_frame(i1, i2, st, slot, oam);
        let r1 = spec_dma_tick(i1, st, slot, oam);
        lemma_dma_ticks_frame(i1, i2, r1.0, r1.1, r1.2, (n - 1) as nat);
    }
}

/// A flat 64 KiB bus with no decoding at all: every address is backed by
/// one byte of storage.  It stands in for the interconnect when the
/// processor is exercised on its own.
pub struct MockInterconnect {
    mem: Vec<u8>,
}

impl MockInterconnect {
    /// The 65536 bytes behind the bus, indexed by address.
    pub closed spec fn view(&self) -> Seq<u8> {
        self.mem@
    }

    /// A bus whose low addresses hold `cart_bytes` and whose remainder is
    /// zero.
    pub fn new(cart_bytes: &[u8]) -> (r: Self)
        requires
            cart_bytes@.len() <= 0x10000,
        ensures
            r@.len() == 0x10000,
            forall|i: int| 0 <= i < cart_bytes@.len() ==> r@[i] == cart_bytes@[i],
            forall|i: int| cart_bytes@.len() <= i < 0x10000 ==> r@[i] == 0u8,
    {
        let mut mem: Vec<u8> = Vec::new();
        let mut i: usize = 0;
        while i < 0x10000
            invariant
                i <= 0x10000,
                mem@.len() == i,
                forall|j: int| 0 <= j < i ==> mem@[j] == 0u8,
            decreases 0x10000 - i,
        {
            mem.push(0);
            i = i + 1;
        }
        let mut k: usize = 0;
        while k < cart_bytes.len()
            invariant
                cart_bytes@.len() <= 0x10000,
                k <= cart_bytes@.len(),
                mem@.len() == 0x10000,
                forall|j: int| 0 <= j < k ==> mem@[j] == cart_bytes@[j],
                forall|j: int| k <= j < 0x10000 ==> mem@[j] == 0u8,
            decreases cart_bytes@.len() - k,
        {
            mem.set(k, cart_bytes[k]);
            k = k + 1;
        }
        MockInterconnect { mem }
    }

    /// Stores `val` at `addr` directly, bypassing the bus interface.
    pub fn set_mem(&mut self, addr: u16, val: u8)
        requires
            addr < old(self)@.len(),
        ensures
            final(self)@ == old(self)@.update(addr as int, val),
    {
        self.mem.set(addr as usize, val);
    }

    /// The halfword at `addr`: low byte there, high byte one above.
    pub fn read_halfword(&self, addr: u16) -> (r: u16)
        requires
            self@.len() == 0x10000,
        ensures
            r == hw(self@[w_add(addr, 1) as int], self@[addr as int]),
    {
        let lo = self.mem[addr as usize];
        let hi = self.mem[addr.wrapping_add(1) as usize];
        (hi as u16) * 256 + (lo as u16)
    }
}

impl Bus for MockInterconnect {
    open spec fn wf(&self) -> bool {
        self@.len() == 0x10000
    }

    open spec fn bus_read(&self, addr: u16) -> u8 {
        self@[addr as int]
    }

    open spec fn bus_write(&self, addr: u16, val: u8, post: &Self) -> bool {
        post@ == self@.update(addr as int, val)
    }

    fn read_byte(&self, addr: u16) -> (r: u8) {
        self.mem[addr as usize]
    }

    fn write_byte(&mut self, addr: u16, val: u8) {
        self.mem.set(addr as usize, val);
    }
}

impl Bus for Interconnect {
    open spec fn wf(&self) -> bool {
        ic_wf(*self)
    }

    open spec fn bus_read(&self, addr: u16) -> u8 {
        spec_read(*self, addr)
    }

    open spec fn bus_write(&self, addr: u16, val: u8, post: &Self) -> bool {
        spec_write(*self, addr, val, *post)
    }

    fn read_byte(&self, addr: u16) -> (r: u8) {
        Interconnect::read_byte(self, addr)
    }

    fn write_byte(&mut self, addr: u16, val: u8) {
        Interconnect::write_byte(self, addr, val);
    }
}

} // verus!
