//! Instruction-level emulation core for a classic 8-bit handheld console:
//! processor, system bus with DMA arbitration, interrupt aggregation, and
//! the peripherals the bus steps (video, audio, timer, input, cartridge).

pub mod apu;
pub mod apu_channel;
pub mod apu_unit;
pub mod bootrom;
pub mod bus;
pub mod cartridge;
pub mod command;
pub mod frame_sequencer;
pub mod device;
pub mod events;
pub mod gameboy;
pub mod gamepad;
pub mod gpu;
pub mod timer;
pub mod cpu;
pub mod interconnect;
pub mod interrupt;
pub mod laws;
pub mod memory;
pub mod model;
pub mod nums;
pub mod symbols;
