//! The builder the host assembles a machine from.  The builder itself only
//! collects choices; opening the named files and wiring the machine is the
//! host's part.

use vstd::prelude::*;

verus! {

/// The choices a machine is built from: the cartridge image, an optional
/// boot ROM, an optional symbol file, and whether to start in the
/// debugger.
pub struct Gameboy {
    pub cartridge: Option<String>,
    pub boot_rom: Option<String>,
    pub symbols: Option<String>,
    pub start_in_debug: bool,
}

impl Gameboy {
    /// Chooses the cartridge file.
    pub fn with_cartridge(self, cart: Option<String>) -> (r: Self)
        ensures
            r == (Gameboy { cartridge: cart, ..self }),
    {
        Gameboy { cartridge: cart, ..self }
    }

    /// Chooses the boot-ROM file.
    pub fn with_boot_rom(self, boot_rom: Option<String>) -> (r: Self)
        ensures
            r == (Gameboy { boot_rom: boot_rom, ..self }),
    {
        Gameboy { boot_rom, ..self }
    }

    /// Chooses the symbol file.
    pub fn with_symbols(self, sym: Option<String>) -> (r: Self)
        ensures
            r == (Gameboy { symbols: sym, ..self }),
    {
        Gameboy { symbols: sym, ..self }
    }

    /// Chooses whether the machine starts in the debugger.
    pub fn start_in_debug(self, sid: bool) -> (r: Self)
        ensures
            r == (Gameboy { start_in_debug: sid, ..self }),
    {
        Gameboy { start_in_debug: sid, ..self }
    }
}

impl Default for Gameboy {
    /// No choices made yet.
    fn default() -> (r: Self)
        ensures
            r.cartridge is None,
            r.boot_rom is None,
            r.symbols is None,
            !r.start_in_debug,
    {
        Gameboy { cartridge: None, boot_rom: None, symbols: None, start_in_debug: false }
    }
}

} // verus!
