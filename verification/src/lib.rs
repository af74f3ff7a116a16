//! A cycle-counting emulator core for the 6502-class processor of the NES,
//! with the bus, the cartridge mappers and the ROM header parser around it.
//!
//! The processor talks to everything else through the [`bus::Bus`] trait,
//! which describes a device as a state machine: what a read returns in a
//! given state, and the state that an access leaves behind. On top of that
//! [`cpu::Cpu`] defines what every instruction does as a function from the
//! state before it to the state after it, bus accesses included, and each
//! executable function is proved to compute exactly that function.
//!
//! - [`alu`] holds the registers and the arithmetic and flag rules.
//! - [`addressing_mode`] and [`instructions`] hold the two opcode tables.
//! - [`cpu`] holds the processor: bus accesses, addressing, one handler per
//!   opcode, the step, and the trace line.
//! - [`ines`], [`mapper`] and [`mappers`] turn a ROM image into a cartridge.
//! - [`console`] wires the processor's bus to work RAM and the cartridge.
//! - [`laws`] states what follows from the definitions.

pub mod addressing_mode;
pub mod alu;
pub mod bus;
pub mod console;
pub mod cpu;
pub mod debugger;
pub mod error;
pub mod ines;
pub mod instructions;
pub mod laws;
pub mod mapper;
pub mod mappers;
pub mod ppu;
pub mod status;
