//! The cartridge: ROM with bank switching, battery RAM, and the boot-ROM
//! handover, behind the bus's read/write contract.

use vstd::prelude::*;
use vstd::slice::slice_to_vec;

verus! {

/// The cartridge's memory-bank-controller kind.
#[derive(Clone, Copy, Debug, PartialEq, Eq, Structural)]
pub enum Mbc {
    NONE,
    MBC1,
}

/// Why a cartridge image was rejected.
#[derive(Clone, Copy, Debug, PartialEq, Eq, Structural)]
pub enum CartridgeError {
    /// The image is too short to hold the cartridge header.
    TooShort,
    /// The header names a cartridge type this core does not support.
    UnknownType(u8),
}

/// The cartridge-type header byte's controller kind, if supported.
pub open spec fn spec_mbc_of(val: u8) -> Option<Mbc> {
    if val == 0x00 || val == 0x08 || val == 0x09 {
        Some(Mbc::NONE)
    } else if val == 0x01 || val == 0x02 || val == 0x03 {
        Some(Mbc::MBC1)
    } else {
        None
    }
}

/// A loaded cartridge.
pub struct Cartridge {
    pub rom: Vec<u8>,
    pub ram: Vec<u8>,
    pub boot_rom: Vec<u8>,

    pub boot_rom_active: bool,

    pub mbc: Mbc,
    pub rom_bank_lower: usize,
    pub bank_upper: usize,
    pub ram_banking: bool,

    pub rom_offsets: (usize, usize),
    pub ram_bank_offset: usize,
    pub ram_enabled: bool,
}

/// Well-formedness: the header is present, the RAM has its full size, and
/// the banking state is in range, so every decoded access lands in bounds.
pub open spec fn cart_wf(c: Cartridge) -> bool {
    &&& 0x147 < c.rom@.len() < 0x1000000
    &&& c.ram@.len() == 0x10000
    &&& c.rom_bank_lower <= 0x1f
    &&& c.bank_upper <= 3
    &&& c.ram_bank_offset <= 0x6000
    &&& c.rom_offsets.0 < 0x1000000
    &&& c.rom_offsets.1 <= 0x1004000
}

/// What a cartridge read returns: the boot overlay when active, else the
/// banked ROM (out-of-image reads degrade to the open-bus value), else the
/// banked RAM.
pub open spec fn spec_cart_read(c: Cartridge, addr: u16) -> u8 {
    if addr < 0x100 && c.boot_rom_active {
        if addr < c.boot_rom@.len() {
            c.boot_rom@[addr as int]
        } else {
            0xff
        }
    } else if addr <= 0x3fff {
        if c.rom_offsets.0 + addr < c.rom@.len() {
            c.rom@[c.rom_offsets.0 + addr]
        } else {
            0xff
        }
    } else if addr <= 0x7fff {
        if c.rom_offsets.1 + (addr - 0x4000) < c.rom@.len() {
            c.rom@[c.rom_offsets.1 + (addr - 0x4000)]
        } else {
            0xff
        }
    } else {
        c.ram@[c.ram_bank_offset + (addr - 0xa000)]
    }
}

/// The bank offsets selected by the current banking state, folded by the
/// image size.
pub open spec fn spec_rom_offsets(c: Cartridge) -> (usize, usize) {
    let upper_bits = c.bank_upper * 32;
    let lower = if c.ram_banking {
        upper_bits
    } else {
        0
    };
    let upper = upper_bits + c.rom_bank_lower;
    if c.rom@.len() == 0 {
        (0, 0)
    } else {
        (
            ((lower * 0x4000) as usize) & ((c.rom@.len() - 1) as usize),
            ((upper * 0x4000) as usize) & ((c.rom@.len() - 1) as usize),
        )
    }
}

pub open spec fn spec_ram_offset(c: Cartridge) -> usize {
    if c.ram_banking {
        (c.bank_upper * 0x2000) as usize
    } else {
        0
    }
}

/// How a cartridge write relates the new state to the old: the low ranges
/// steer banking, the RAM window stores.
pub open spec fn spec_cart_write(c: Cartridge, addr: u16, val: u8, post: Cartridge) -> bool {
    if addr <= 0x1fff {
        post == Cartridge { ram_enabled: val & 0x0a != 0, ..c }
    } else if addr <= 0x3fff {
        let low = (val & 0x1f) as usize;
        let c1 = Cartridge { rom_bank_lower: if low == 0 { 1 } else { low }, ..c };
        post == Cartridge { rom_offsets: spec_rom_offsets(c1), ..c1 }
    } else if addr <= 0x5fff {
        let c1 = Cartridge { bank_upper: (val & 3) as usize, ..c };
        post == Cartridge {
            rom_offsets: spec_rom_offsets(c1),
            ram_bank_offset: spec_ram_offset(c1),
            ..c1
        }
    } else if addr <= 0x7fff {
        let c1 = Cartridge { ram_banking: val != 0, ..c };
        post == Cartridge {
            rom_offsets: spec_rom_offsets(c1),
            ram_bank_offset: spec_ram_offset(c1),
            ..c1
        }
    } else {
        &&& post.ram@ == c.ram@.update(c.ram_bank_offset + (addr - 0xa000), val)
        &&& post == Cartridge { ram: post.ram, ..c }
    }
}

impl Cartridge {
    /// A cartridge from a ROM image.  The image must hold the header, and
    /// the header's cartridge-type byte must name a supported controller;
    /// anything else is rejected with the reason.
    pub fn from_bytes(bytes: &[u8]) -> (r: Result<Cartridge, CartridgeError>)
        requires
            bytes@.len() < 0x1000000,
        ensures
            bytes@.len() <= 0x147 ==> r == Err::<Cartridge, CartridgeError>(CartridgeError::TooShort),
            bytes@.len() > 0x147 && spec_mbc_of(bytes@[0x147]) is None ==> r
                == Err::<Cartridge, CartridgeError>(CartridgeError::UnknownType(bytes@[0x147])),
            bytes@.len() > 0x147 && spec_mbc_of(bytes@[0x147]) is Some ==> r is Ok && {
                let c = r->Ok_0;
                &&& cart_wf(c)
                &&& c.rom@ == bytes@
                &&& c.ram@ =~= Seq::new(0x10000, |i: int| 0u8)
                &&& c.boot_rom@.len() == 0
                &&& !c.boot_rom_active
                &&& Some(c.mbc) == spec_mbc_of(bytes@[0x147])
                &&& c.rom_bank_lower == 1
                &&& c.bank_upper == 0
                &&& !c.ram_banking
                &&& c.rom_offsets == (0usize, 0x4000usize)
                &&& c.ram_bank_offset == 0
                &&& !c.ram_enabled
            },
    {
        if bytes.len() <= 0x147 {
            return Err(CartridgeError::TooShort);
        }
        let rom_type = bytes[0x147];
        let mbc = if rom_type == 0x00 || rom_type == 0x08 || rom_type == 0x09 {
            Mbc::NONE
        } else if rom_type == 0x01 || rom_type == 0x02 || rom_type == 0x03 {
            Mbc::MBC1
        } else {
            return Err(CartridgeError::UnknownType(rom_type));
        };

        let mut ram: Vec<u8> = Vec::new();
        let mut i: usize = 0;
        while i < 0x10000
            invariant
                i <= 0x10000,
                ram@ =~= Seq::new(i as nat, |j: int| 0u8),
            decreases 0x10000 - i,
        {
            ram.push(0);
            i = i + 1;
        }

        Ok(
            Cartridge {
                rom: slice_to_vec(bytes),
                ram,
                boot_rom: Vec::new(),

                boot_rom_active: false,
                mbc,

                rom_bank_lower: 1,
                bank_upper: 0,
                ram_banking: false,

                rom_offsets: (0x0000, 0x4000),
                ram_bank_offset: 0,
                ram_enabled: false,
            },
        )
    }

    /// Installs a boot-ROM image over the low window.
    pub fn set_boot_rom(&mut self, bytes: &[u8])
        ensures
            final(self).boot_rom@ == bytes@,
            final(self).boot_rom_active,
            *final(self) == (Cartridge {
                boot_rom: final(self).boot_rom,
                boot_rom_active: true,
                ..*old(self)
            }),
    {
        self.boot_rom = slice_to_vec(bytes);
        self.boot_rom_active = true;
    }

    /// Reads one byte through the cartridge's windows.
    pub fn read_byte(&self, addr: u16) -> (r: u8)
        requires
            cart_wf(*self),
            addr <= 0x7fff || (0xa000 <= addr && addr <= 0xbfff),
        ensures
            r == spec_cart_read(*self, addr),
    {
        if addr < 0x100 && self.boot_rom_active {
            if (addr as usize) < self.boot_rom.len() {
                self.boot_rom[addr as usize]
            } else {
                0xff
            }
        } else if addr <= 0x3fff {
            let (lower, _) = self.rom_offsets;
            if lower + (addr as usize) < self.rom.len() {
                self.rom[lower + (addr as usize)]
            } else {
                0xff
            }
        } else if addr <= 0x7fff {
            let (_, upper) = self.rom_offsets;
            if upper + ((addr - 0x4000) as usize) < self.rom.len() {
                self.rom[upper + ((addr - 0x4000) as usize)]
            } else {
                0xff
            }
        } else {
            self.ram[self.ram_bank_offset + ((addr - 0xa000) as usize)]
        }
    }

    /// Writes one byte through the cartridge's windows.
    pub fn write(&mut self, addr: u16, val: u8)
        requires
            cart_wf(*old(self)),
            addr <= 0x7fff || (0xa000 <= addr && addr <= 0xbfff),
        ensures
            cart_wf(*final(self)),
            spec_cart_write(*old(self), addr, val, *final(self)),
    {
        proof {
            lemma_cart_masks(val);
        }
        if addr <= 0x1fff {
            self.ram_enabled = (val & 0x0a) != 0;
        } else if addr <= 0x3fff {
            let low = (val & 0x1f) as usize;
            self.rom_bank_lower = if low == 0x00 {
                0x01
            } else {
                low
            };
            self.update_rom_offset();
        } else if addr <= 0x5fff {
            self.bank_upper = (val & 0x3) as usize;
            self.update_rom_offset();
            self.update_ram_offset();
        } else if addr <= 0x7fff {
            self.ram_banking = val != 0;
            self.update_rom_offset();
            self.update_ram_offset();
        } else {
            self.ram.set(self.ram_bank_offset + ((addr - 0xa000) as usize), val);
        }
    }

    /// Hands the low window back from the boot ROM to the cartridge.
    pub fn disable_boot_rom(&mut self)
        ensures
            *final(self) == (Cartridge { boot_rom_active: false, ..*old(self) }),
    {
        self.boot_rom_active = false;
    }

    fn update_rom_offset(&mut self)
        requires
            old(self).rom_bank_lower <= 0x1f,
            old(self).bank_upper <= 3,
            old(self).rom@.len() < 0x1000000,
        ensures
            *final(self) == (Cartridge { rom_offsets: spec_rom_offsets(*old(self)), ..*old(self) }),
            final(self).rom_offsets.0 < 0x1000000 || final(self).rom_offsets == (0usize, 0usize),
            final(self).rom_offsets.0 <= 0x1000000 && final(self).rom_offsets.1 <= 0x1004000,
            final(self).rom_offsets.0 < 0x1000000,
    {
        let bank_upper = self.bank_upper * 32;
        let lower = if self.ram_banking {
            bank_upper
        } else {
            0x00
        };
        let upper = bank_upper + self.rom_bank_lower;

        if self.rom.len() == 0 {
            self.rom_offsets = (0, 0);
        } else {
            let mask = self.rom.len() - 1;
            let lower_raw = lower * 0x4000;
            let upper_raw = upper * 0x4000;
            proof {
                lemma_mask_le(lower_raw, mask);
                lemma_mask_le(upper_raw, mask);
            }
            let lower_bank = lower_raw & mask;
            let upper_bank = upper_raw & mask;
            self.rom_offsets = (lower_bank, upper_bank);
        }
    }

    fn update_ram_offset(&mut self)
        requires
            old(self).bank_upper <= 3,
        ensures
            *final(self) == (Cartridge { ram_bank_offset: spec_ram_offset(*old(self)), ..*old(self) }),
    {
        self.ram_bank_offset = if self.ram_banking {
            self.bank_upper * 0x2000
        } else {
            0
        };
    }

    /// The game's name from the header, as raw bytes up to the first zero.
    pub fn name(&self) -> (r: Vec<u8>)
        requires
            cart_wf(*self),
        ensures
            r@.len() <= 16,
            forall|i: int| 0 <= i < r@.len() ==> r@[i] == self.rom@[0x134 + i],
    {
        let mut ret: Vec<u8> = Vec::new();
        let mut i: usize = 0;
        while i < 16
            invariant
                cart_wf(*self),
                i <= 16,
                ret@.len() == i,
                forall|j: int| 0 <= j < i ==> ret@[j] == self.rom@[0x134 + j],
            decreases 16 - i,
        {
            let c = self.rom[0x134 + i];
            if c == 0 {
                return ret;
            }
            ret.push(c);
            i = i + 1;
        }
        ret
    }

    /// The header's cartridge-type byte.
    pub fn rom_type(&self) -> (r: u8)
        requires
            cart_wf(*self),
        ensures
            r == self.rom@[0x147],
    {
        self.rom[0x147]
    }


    /// The header's cartridge-type byte, as the conventional name.
    pub fn kind_name(&self) -> (r: &'static str)
        requires
            cart_wf(*self),
        ensures
            r@ == spec_kind_name(self.rom@[0x147]),
    {
        match self.rom_type() {
            0x00 => "ROM ONLY",
            0x01 => "ROM+MBC1",
            0x02 => "ROM+MBC1+RAM",
            0x03 => "ROM+MBC1+RAM+BATT",
            0x05 => "ROM+MBC2",
            0x06 => "ROM+MBC2+BATTERY",
            0x08 => "ROM+RAM",
            0x09 => "ROM+RAM+BATTERY",
            0x0B => "ROM+MMM01",
            0x0C => "ROM+MMM01+SRAM",
            0x0D => "ROM+MMM01+SRAM+BATT",
            0x0F => "ROM+MBC3+TIMER+BATT",
            0x10 => "ROM+MBC3+TIMER+RAM+BATT",
            0x11 => "ROM+MBC3",
            0x12 => "ROM+MBC3+RAM",
            0x13 => "ROM+MBC3+RAM+BATT",
            0x15 => "MBC4",
            0x16 => "MBC4+RAM",
            0x17 => "MBC4+RAM+BATTERY",
            0x19 => "ROM+MBC5",
            0x1A => "ROM+MBC5+RAM",
            0x1B => "ROM+MBC5+RAM+BATT",
            0x1C => "ROM+MBC5+RUMBLE",
            0x1D => "ROM+MBC5+RUMBLE+SRAM",
            0x1E => "ROM+MBC5+RUMBLE+SRAM+BATT",
            0x1F => "Pocket Camera",
            0x20 => "MBC6",
            0x22 => "MBC7+SENSOR+RUMBLE+RAM+BATTERY",
            0xFC => "POCKET CAMERA",
            0xFD => "Bandai TAMA5",
            0xFE => "Hudson HuC-3",
            0xFF => "Hudson HuC-1",
            _ => "UNRECOGNISED CART TYPE",
        }
    }

    /// The header's ROM-size byte, as the conventional description; an
    /// image too short to hold the byte counts as unrecognised.
    pub fn rom_size(&self) -> (r: &'static str)
        requires
            cart_wf(*self),
        ensures
            r@ == if self.rom@.len() > 0x148 {
                spec_rom_size(self.rom@[0x148])
            } else {
                "UNRECOGNISED CART ROM SIZE"@
            },
    {
        if self.rom.len() <= 0x148 {
            return "UNRECOGNISED CART ROM SIZE";
        }
        match self.rom[0x148] {
            0x00 => "32KByte (no ROM banking)",
            0x01 => "64KByte (4 banks)",
            0x02 => "128KByte (8 banks)",
            0x03 => "256KByte (16 banks)",
            0x04 => "512KByte (32 banks)",
            0x05 => "1MByte (64 banks)  - only 63 banks used by MBC1",
            0x06 => "2MByte (128 banks) - only 125 banks used by MBC1",
            0x07 => "4MByte (256 banks)",
            0x08 => "8MByte (512 banks)",
            0x52 => "1.1MByte (72 banks)",
            0x53 => "1.2MByte (80 banks)",
            0x54 => "1.5MByte (96 banks)",
            _ => "UNRECOGNISED CART ROM SIZE",
        }
    }

    /// The controller kind's name.
    pub fn mbc_name(&self) -> (r: &'static str)
        ensures
            r@ == spec_mbc_name(self.mbc),
    {
        match self.mbc {
            Mbc::NONE => "None",
            Mbc::MBC1 => "MBC1",
        }
    }
}

proof fn lemma_cart_masks(val: u8)
    by (bit_vector)
    ensures
        val & 0x1f <= 0x1f,
        val & 3 <= 3,
{
}

proof fn lemma_mask_le(x: usize, m: usize)
    by (bit_vector)
    ensures
        x & m <= m,
{
}


/// The conventional name of each cartridge-type byte.
pub open spec fn spec_kind_name(b: u8) -> Seq<char> {
    match b {
        0x00 => "ROM ONLY"@,
        0x01 => "ROM+MBC1"@,
        0x02 => "ROM+MBC1+RAM"@,
        0x03 => "ROM+MBC1+RAM+BATT"@,
        0x05 => "ROM+MBC2"@,
        0x06 => "ROM+MBC2+BATTERY"@,
        0x08 => "ROM+RAM"@,
        0x09 => "ROM+RAM+BATTERY"@,
        0x0B => "ROM+MMM01"@,
        0x0C => "ROM+MMM01+SRAM"@,
        0x0D => "ROM+MMM01+SRAM+BATT"@,
        0x0F => "ROM+MBC3+TIMER+BATT"@,
        0x10 => "ROM+MBC3+TIMER+RAM+BATT"@,
        0x11 => "ROM+MBC3"@,
        0x12 => "ROM+MBC3+RAM"@,
        0x13 => "ROM+MBC3+RAM+BATT"@,
        0x15 => "MBC4"@,
        0x16 => "MBC4+RAM"@,
        0x17 => "MBC4+RAM+BATTERY"@,
        0x19 => "ROM+MBC5"@,
        0x1A => "ROM+MBC5+RAM"@,
        0x1B => "ROM+MBC5+RAM+BATT"@,
        0x1C => "ROM+MBC5+RUMBLE"@,
        0x1D => "ROM+MBC5+RUMBLE+SRAM"@,
        0x1E => "ROM+MBC5+RUMBLE+SRAM+BATT"@,
        0x1F => "Pocket Camera"@,
        0x20 => "MBC6"@,
        0x22 => "MBC7+SENSOR+RUMBLE+RAM+BATTERY"@,
        0xFC => "POCKET CAMERA"@,
        0xFD => "Bandai TAMA5"@,
        0xFE => "Hudson HuC-3"@,
        0xFF => "Hudson HuC-1"@,
        _ => "UNRECOGNISED CART TYPE"@,
    }
}

/// The conventional description of each ROM-size byte.
pub open spec fn spec_rom_size(b: u8) -> Seq<char> {
    match b {
        0x00 => "32KByte (no ROM banking)"@,
        0x01 => "64KByte (4 banks)"@,
        0x02 => "128KByte (8 banks)"@,
        0x03 => "256KByte (16 banks)"@,
        0x04 => "512KByte (32 banks)"@,
        0x05 => "1MByte (64 banks)  - only 63 banks used by MBC1"@,
        0x06 => "2MByte (128 banks) - only 125 banks used by MBC1"@,
        0x07 => "4MByte (256 banks)"@,
        0x08 => "8MByte (512 banks)"@,
        0x52 => "1.1MByte (72 banks)"@,
        0x53 => "1.2MByte (80 banks)"@,
        0x54 => "1.5MByte (96 banks)"@,
        _ => "UNRECOGNISED CART ROM SIZE"@,
    }
}

/// The name of each controller kind.
pub open spec fn spec_mbc_name(m: Mbc) -> Seq<char> {
    match m {
        Mbc::NONE => "None"@,
        Mbc::MBC1 => "MBC1"@,
    }
}

} // verus!
