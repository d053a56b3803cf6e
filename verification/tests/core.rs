use gameboy::bus::Bus;
use gameboy::cartridge::{Cartridge, CartridgeError};
use gameboy::cpu::{Cpu, Flags, StepFault};
use gameboy::bootrom::Bootrom;
use gameboy::device::{Device, Key};
use gameboy::events::Event;
use gameboy::gamepad::Gamepad;
use gameboy::interconnect::{DmaState, Interconnect, MockInterconnect};
use gameboy::interrupt::{Interrupt, Irq};
use gameboy::gameboy::Gameboy;
use gameboy::memory::Memory;
use gameboy::model::{default_model_priority, Model};
use gameboy::symbols::Symbols;
use gameboy::timer::Timer;

/// A host that holds no keys, never stops, and discards frames.
struct NullDevice;

impl Device for NullDevice {
    fn update(&mut self) {}
    fn set_frame_buffer(&mut self, _buffer: &[u32]) {}
    fn key_down(&self, _key: Key) -> bool {
        false
    }
    fn running(&self) -> bool {
        true
    }
}

fn fresh_cpu() -> Cpu {
    let mut cpu = Cpu::new();
    cpu.f = 0x00.into();
    cpu.sp = 0xfffe;
    cpu
}

fn make_interconnect() -> Interconnect {
    // A headerful, type-zero cartridge image.
    let mut cart_bytes = vec![0u8; 0x8000];
    cart_bytes[0x147] = 0x00;
    let cartridge = Cartridge::from_bytes(&cart_bytes).unwrap();
    let bootrom = Bootrom::from_bytes(&[]);
    Interconnect::new(bootrom, cartridge)
}

#[test]
fn immediate_load_scenario() {
    // Loading 0x42 into the accumulator through the 8-bit immediate load:
    // accumulator 0x42, counter advanced by two, eight cycles.
    let mut bus = MockInterconnect::new(&[]);
    bus.set_mem(0x100, 0x3e);
    bus.set_mem(0x101, 0x42);
    let mut cpu = fresh_cpu();
    let cycles = cpu.step(&mut bus).unwrap();
    assert_eq!(cycles, 8);
    assert_eq!(cpu.a, 0x42);
    assert_eq!(cpu.pc, 0x102);
}

#[test]
fn add_overflow_scenario() {
    // 0xff plus 0x01: result zero with zero, half-carry and carry set and
    // subtract clear.
    let mut bus = MockInterconnect::new(&[]);
    bus.set_mem(0x100, 0x80);
    let mut cpu = fresh_cpu();
    cpu.a = 0xff;
    cpu.b = 0x01;
    let cycles = cpu.step(&mut bus).unwrap();
    assert_eq!(cycles, 4);
    assert_eq!(cpu.a, 0x00);
    assert!(cpu.f.z);
    assert!(cpu.f.h);
    assert!(cpu.f.c);
    assert!(!cpu.f.n);
}

#[test]
fn flags_round_trip_all_bytes() {
    // Encoding after decoding keeps exactly the meaningful high nibble,
    // for all 256 bytes, and decoding undoes encoding.
    for v in 0..=255u8 {
        let f: Flags = v.into();
        let back: u8 = f.into();
        assert_eq!(back, v & 0xf0);
        let again: Flags = back.into();
        assert_eq!(again, f);
    }
}

#[test]
fn arithmetic_flags_match_formulas() {
    // Generated operand pairs with carry-in against an independent
    // computation of the half-carry and carry formulas.
    let mut seed: u32 = 0x12345678;
    for _ in 0..500 {
        seed = seed.wrapping_mul(1664525).wrapping_add(1013904223);
        let a = (seed >> 8) as u8;
        let b = (seed >> 16) as u8;
        let cin = seed & 1 == 1;

        let mut bus = MockInterconnect::new(&[]);
        bus.set_mem(0x100, 0x88); // add with carry from register B
        let mut cpu = fresh_cpu();
        cpu.a = a;
        cpu.b = b;
        cpu.f.c = cin;
        cpu.step(&mut bus).unwrap();
        let ci = if cin { 1u16 } else { 0u16 };
        assert_eq!(cpu.f.h, (a as u16 & 0xf) + (b as u16 & 0xf) + ci > 0xf);
        assert_eq!(cpu.f.c, a as u16 + b as u16 + ci > 0xff);
        assert_eq!(cpu.a, (a as u16 + b as u16 + ci) as u8);
        assert!(!cpu.f.n);

        let mut bus2 = MockInterconnect::new(&[]);
        bus2.set_mem(0x100, 0x98); // subtract with carry from register B
        let mut cpu2 = fresh_cpu();
        cpu2.a = a;
        cpu2.b = b;
        cpu2.f.c = cin;
        cpu2.step(&mut bus2).unwrap();
        assert_eq!(cpu2.f.h, (b as u16 & 0xf) + ci > (a as u16 & 0xf));
        assert_eq!(cpu2.f.c, (a as u16) < b as u16 + ci);
        assert!(cpu2.f.n);
    }
}

#[test]
fn stack_round_trip() {
    // Pushing then popping returns the value and restores the stack
    // pointer, across values and starting pointers.
    let cases: [(u16, u16); 4] = [(0xfffe, 0x1234), (0xc800, 0xabcd), (0x8000, 0x0001), (0xd000, 0xff00)];
    for (sp, v) in cases.iter() {
        let mut bus = MockInterconnect::new(&[]);
        bus.set_mem(0x100, 0xc5); // push BC
        bus.set_mem(0x101, 0xd1); // pop DE
        let mut cpu = fresh_cpu();
        cpu.sp = *sp;
        cpu.set_bc(*v);
        cpu.step(&mut bus).unwrap();
        cpu.step(&mut bus).unwrap();
        assert_eq!(cpu.de(), *v);
        assert_eq!(cpu.sp, *sp);
    }
}

#[test]
fn undefined_opcode_faults() {
    let mut bus = MockInterconnect::new(&[]);
    bus.set_mem(0x100, 0x27);
    let mut cpu = fresh_cpu();
    assert_eq!(cpu.step(&mut bus), Err(StepFault::Undefined(0x27)));
    assert_eq!(cpu.pc, 0x101);
}

#[test]
fn undefined_extended_opcode_faults() {
    let mut bus = MockInterconnect::new(&[]);
    bus.set_mem(0x100, 0xcb);
    bus.set_mem(0x101, 0x00);
    let mut cpu = fresh_cpu();
    assert_eq!(cpu.step(&mut bus), Err(StepFault::UndefinedExtended(0x00)));
    assert_eq!(cpu.pc, 0x102);
}

#[test]
fn dma_transfer_scenario() {
    // Triggering a transfer from page 0xc0 and stepping the bus the
    // required cycles copies internal RAM 0xc000..0xc09f into the object
    // table verbatim, and the machine returns to idle.
    let mut ic = make_interconnect();
    let mut device = NullDevice;
    let mut events: Vec<Event> = Vec::new();

    for i in 0..160u16 {
        ic.write_byte(0xc000 + i, (i as u8).wrapping_mul(3).wrapping_add(7));
    }
    ic.write_byte(0xff46, 0xc0);
    assert_eq!(ic.dma_state, DmaState::Setup1);

    ic.step(160 * 4 + 8, &mut device, &mut events);

    assert_eq!(ic.dma_state, DmaState::Inactive);
    for i in 0..160u16 {
        assert_eq!(
            ic.read_byte(0xfe00 + i),
            (i as u8).wrapping_mul(3).wrapping_add(7),
            "object byte {}",
            i
        );
    }
}

#[test]
fn dma_contention_read() {
    // While the transfer is active, a read on the same physical segment as
    // its source returns the latched byte, not the addressed memory.
    let mut ic = make_interconnect();
    let mut device = NullDevice;
    let mut events: Vec<Event> = Vec::new();

    for i in 0..160u16 {
        ic.write_byte(0xc000 + i, 0x99);
    }
    ic.write_byte(0xd500, 0x42);
    ic.write_byte(0xff46, 0xc0);
    ic.step(16, &mut device, &mut events); // four micro-cycles: well into Active
    assert!(matches!(ic.dma_state, DmaState::Active(_)));
    // 0xd500 sits on the same external bus segment as the 0xc0 source page.
    assert_eq!(ic.read_byte(0xd500), ic.dma_slot);
    assert_eq!(ic.dma_slot, 0x99);
    // Video RAM sits on a different segment: the plain decode answers.
    ic.write_byte(0x9000, 0x17);
    assert_eq!(ic.read_byte(0x9000), 0x17);
}

#[test]
fn dma_restart_detour() {
    // A trigger during an active transfer takes the two-phase reset detour
    // before restarting at index zero.
    let mut ic = make_interconnect();
    let mut device = NullDevice;
    let mut events: Vec<Event> = Vec::new();

    ic.write_byte(0xff46, 0xc0);
    ic.step(16, &mut device, &mut events);
    assert!(matches!(ic.dma_state, DmaState::Active(_)));

    ic.write_byte(0xff46, 0xc0);
    assert_eq!(ic.dma_state, DmaState::Reset1);
    ic.step(4, &mut device, &mut events);
    assert_eq!(ic.dma_state, DmaState::Reset2);
    ic.step(4, &mut device, &mut events);
    assert_eq!(ic.dma_state, DmaState::Active(0));
}

#[test]
fn oam_writes_dropped_during_dma() {
    let mut ic = make_interconnect();
    let mut device = NullDevice;
    let mut events: Vec<Event> = Vec::new();

    ic.write_byte(0xfe05, 0x77);
    ic.write_byte(0xff46, 0xc0);
    ic.write_byte(0xfe05, 0x11); // dropped: a transfer is in flight
    ic.step(160 * 4 + 8, &mut device, &mut events);
    // The transfer overwrote the whole table from zeroed RAM.
    assert_eq!(ic.read_byte(0xfe05), 0x00);
}

#[test]
fn echo_ram_aliases_internal_ram() {
    let mut ic = make_interconnect();
    ic.write_byte(0xc123, 0x5a);
    assert_eq!(ic.read_byte(0xe123), 0x5a);
    ic.write_byte(0xe200, 0xa5);
    assert_eq!(ic.read_byte(0xc200), 0xa5);
}

#[test]
fn open_bus_reads_all_ones() {
    let mut ic = make_interconnect();
    assert_eq!(ic.read_byte(0xfea5), 0xff);
    assert_eq!(ic.read_byte(0xff03), 0xff);
    ic.write_byte(0xfea5, 0x12); // discarded
    assert_eq!(ic.read_byte(0xfea5), 0xff);
}

#[test]
fn interrupt_flag_high_bits_always_set() {
    let mut ic = make_interconnect();
    let mut device = NullDevice;
    let mut events: Vec<Event> = Vec::new();
    ic.write_byte(0xff0f, 0x00);
    ic.step(4, &mut device, &mut events);
    assert_eq!(ic.read_byte(0xff0f) & 0xe0, 0xe0);
}

#[test]
fn irq_accumulator_bits() {
    let mut irq = Irq::default();
    irq.raise_interrupt(Interrupt::VBlank);
    irq.raise_interrupt(Interrupt::Timer);
    assert_eq!(irq.get_if(), 0xe0 | 0x01 | 0x04);
    let mut irq2 = Irq::default();
    irq2.raise_interrupt(Interrupt::Stat);
    irq2.raise_interrupt(Interrupt::SerialIO);
    irq2.raise_interrupt(Interrupt::Gamepad);
    assert_eq!(irq2.get_if(), 0xe0 | 0x02 | 0x08 | 0x10);
}

#[test]
fn watchpoint_event_fires_once() {
    let mut ic = make_interconnect();
    let mut device = NullDevice;
    let mut events: Vec<Event> = Vec::new();
    ic.watchpoints.insert(0xc050);
    ic.write_byte(0xc050, 0x01);
    ic.step(4, &mut device, &mut events);
    assert_eq!(events, vec![Event::Watchpoint]);
    ic.step(4, &mut device, &mut events);
    assert_eq!(events, vec![Event::Watchpoint]);
}

#[test]
fn boot_rom_overlay_and_disable() {
    let mut cart_bytes = vec![0x11u8; 0x8000];
    cart_bytes[0x147] = 0x00;
    let cartridge = Cartridge::from_bytes(&cart_bytes).unwrap();
    let bootrom = Bootrom::from_bytes(&[0xaa, 0xbb]);
    let mut ic = Interconnect::new(bootrom, cartridge);
    assert_eq!(ic.read_byte(0x0000), 0xaa);
    assert_eq!(ic.read_byte(0x0001), 0xbb);
    // Past the image the overlay degrades to the open-bus value.
    assert_eq!(ic.read_byte(0x0002), 0xff);
    ic.write_byte(0xff50, 0x01);
    assert_eq!(ic.read_byte(0x0000), 0x11);
}

#[test]
fn cartridge_load_errors() {
    assert!(matches!(Cartridge::from_bytes(&[0u8; 0x100]), Err(CartridgeError::TooShort)));
    let mut bad = vec![0u8; 0x8000];
    bad[0x147] = 0x42;
    assert!(matches!(Cartridge::from_bytes(&bad), Err(CartridgeError::UnknownType(0x42))));
}

#[test]
fn timer_divider_and_control() {
    let mut t = Timer::default();
    assert_eq!(t.read_reg(0xff04), 0xab);
    t.write_reg(0xff04, 0x55);
    assert_eq!(t.read_reg(0xff04), 0x00);
    t.write_reg(0xff07, 0x07);
    assert_eq!(t.timer_control(), 0x07);
    t.write_reg(0xff06, 0x42);
    assert_eq!(t.read_reg(0xff06), 0x42);
}

#[test]
fn timer_counts_and_raises_interrupt() {
    let mut t = Timer::default();
    let mut irq = Irq::default();
    t.write_reg(0xff04, 0); // divider to zero
    t.write_reg(0xff07, 0x05); // enable, fastest clock (bit 3)
    // The counter ticks on each falling edge of divider bit 3, so every 16
    // cycles; 16 * 256 cycles overflow a zero counter once.
    t.step(16 * 256, &mut irq);
    assert_eq!(irq.get_if() & 0x04, 0x04);
}

#[test]
fn gamepad_register_matrix() {
    let mut g = Gamepad::new();
    g.write_reg(0x00); // both select lines low: all keys visible
    // Nothing pressed: all low bits read released (set).
    assert_eq!(g.read_reg(), 0xcf);
    g.write_reg(0x30); // both lines high: nothing selected
    assert_eq!(g.read_reg(), 0xc0);
}

#[test]
fn memory_read_write() {
    let mut m = Memory::new(0x100);
    m.write_byte(0x42, 0x99);
    assert_eq!(m.read_byte(0x42), 0x99);
    assert_eq!(m.read_byte(0x41), 0x00);
}

#[test]
fn gpu_registers_round_trip() {
    let mut ic = make_interconnect();
    ic.write_byte(0xff42, 0x13);
    assert_eq!(ic.read_byte(0xff42), 0x13);
    ic.write_byte(0xff47, 0xe4);
    assert_eq!(ic.read_byte(0xff47), 0xe4);
    ic.write_byte(0xff40, 0x91);
    assert_eq!(ic.read_byte(0xff40), 0x91);
    // Video RAM through the bus.
    ic.write_byte(0x8123, 0x3c);
    assert_eq!(ic.read_byte(0x8123), 0x3c);
}

#[test]
fn apu_registers_round_trip() {
    let mut ic = make_interconnect();
    ic.write_byte(0xff26, 0x80); // master enable on
    assert_eq!(ic.read_byte(0xff26) & 0x80, 0x80);
    ic.write_byte(0xff24, 0x77);
    assert_eq!(ic.read_byte(0xff24), 0x77);
    ic.write_byte(0xff30, 0x5e); // wave storage
    assert_eq!(ic.read_byte(0xff30), 0x5e);
    // Master off clears the mixer registers and ignores other writes.
    ic.write_byte(0xff26, 0x00);
    assert_eq!(ic.read_byte(0xff24), 0x00);
    ic.write_byte(0xff24, 0x12);
    assert_eq!(ic.read_byte(0xff24), 0x00);
}

#[test]
fn serial_stub_values() {
    let mut ic = make_interconnect();
    ic.write_byte(0xff01, 0x55);
    assert_eq!(ic.read_byte(0xff01), 0x00);
    assert_eq!(ic.read_byte(0xff02), 0x7e);
}

#[test]
fn delayed_interrupt_disable() {
    // The disable instruction flips master enable through the countdown.
    let mut bus = MockInterconnect::new(&[]);
    bus.set_mem(0x100, 0xf3);
    let mut cpu = fresh_cpu();
    assert!(cpu.interrupts_enabled);
    cpu.step(&mut bus).unwrap();
    assert!(!cpu.interrupts_enabled);
    assert_eq!(cpu.instructions_to_di, 0);
}

#[test]
fn register_pairs() {
    let mut cpu = fresh_cpu();
    cpu.set_bc(0x1234);
    cpu.set_de(0x5678);
    cpu.set_hl(0x9abc);
    assert_eq!(cpu.bc(), 0x1234);
    assert_eq!(cpu.de(), 0x5678);
    assert_eq!(cpu.hl(), 0x9abc);
    assert_eq!((cpu.b, cpu.c), (0x12, 0x34));
    cpu.a = 0x42;
    cpu.f = 0xf0.into();
    assert_eq!(cpu.af(), 0x42f0);
}

#[test]
fn cartridge_header_names() {
    let mut cart_bytes = vec![0u8; 0x8000];
    cart_bytes[0x147] = 0x01;
    cart_bytes[0x148] = 0x02;
    let title = b"HELLO";
    for (i, b) in title.iter().enumerate() {
        cart_bytes[0x134 + i] = *b;
    }
    let c = Cartridge::from_bytes(&cart_bytes).unwrap();
    assert_eq!(c.name(), b"HELLO".to_vec());
    assert_eq!(c.kind_name(), "ROM+MBC1");
    assert_eq!(c.mbc_name(), "MBC1");
    assert_eq!(c.rom_size(), "128KByte (8 banks)");
    assert_eq!(c.rom_type(), 0x01);
}

#[test]
fn cartridge_ram_banking() {
    let mut cart_bytes = vec![0u8; 0x8000];
    cart_bytes[0x147] = 0x03;
    let b = Bootrom::from_bytes(&[]);
    let mut ic = Interconnect::new(b, Cartridge::from_bytes(&cart_bytes).unwrap());
    // Battery RAM through the external window.
    ic.write_byte(0xa123, 0x5e);
    assert_eq!(ic.read_byte(0xa123), 0x5e);
    // Selecting another RAM bank moves the window.
    ic.write_byte(0x6000, 0x01); // banking mode on
    ic.write_byte(0x4000, 0x01); // bank one
    assert_eq!(ic.read_byte(0xa123), 0x00);
    ic.write_byte(0x4000, 0x00); // back to bank zero
    ic.write_byte(0x6000, 0x00);
    assert_eq!(ic.read_byte(0xa123), 0x5e);
}

#[test]
fn symbols_table() {
    let mut s = Symbols::new();
    s.insert(0x1234, "start".to_string());
    s.insert(0x2000, "loop_top".to_string());
    assert_eq!(s.get(0x1234), Some("start"));
    assert_eq!(s.get(0x9999), None);
    assert_eq!(s.reverse_get(&"loop_top".to_string()), Some(0x2000));
    assert_eq!(s.reverse_get(&"nowhere".to_string()), None);
    s.remove(0x1234);
    assert_eq!(s.get(0x1234), None);
    assert_eq!(s.get(0x2000), Some("loop_top"));
}

#[test]
fn model_bootrom_names() {
    assert_eq!(Model::Dmg.bootrom_name(), "dmg_boot.bin");
    assert_eq!(Model::Dmg0.bootrom_name(), "dmg0_rom.bin");
    assert_eq!(Model::Sgb2.bootrom_name(), "sgb2_boot.bin");
    let prio = default_model_priority();
    assert_eq!(prio[0], Model::Dmg);
    assert_eq!(prio.len(), 5);
}

#[test]
fn builder_collects_choices() {
    let gb = Gameboy::default()
        .with_cartridge(Some("game.gb".to_string()))
        .with_boot_rom(None)
        .with_symbols(Some("game.sym".to_string()))
        .start_in_debug(true);
    assert_eq!(gb.cartridge.as_deref(), Some("game.gb"));
    assert_eq!(gb.boot_rom, None);
    assert_eq!(gb.symbols.as_deref(), Some("game.sym"));
    assert!(gb.start_in_debug);
}

#[test]
fn bootrom_bytes() {
    let b = Bootrom::from_bytes(&[1, 2, 3]);
    assert_eq!(b.read_byte(0), 1);
    assert_eq!(b.read_byte(2), 3);
    assert_eq!(b.read_byte(3), 0xff);
}

#[test]
fn high_ram_and_stack_through_the_bus() {
    let mut ic = make_interconnect();
    ic.write_byte(0xff85, 0x3d);
    assert_eq!(ic.read_byte(0xff85), 0x3d);

    // A push and pop against high RAM through the real bus.
    let mut cpu = fresh_cpu();
    cpu.sp = 0xfffe;
    cpu.set_bc(0xbeef);
    // Run PUSH BC then POP DE out of internal RAM.
    ic.write_byte(0xc100, 0xc5);
    ic.write_byte(0xc101, 0xd1);
    cpu.pc = 0xc100;
    cpu.step(&mut ic).unwrap();
    assert_eq!(ic.read_byte(0xfffd), 0xbe);
    assert_eq!(ic.read_byte(0xfffc), 0xef);
    cpu.step(&mut ic).unwrap();
    assert_eq!(cpu.de(), 0xbeef);
    assert_eq!(cpu.sp, 0xfffe);
}
