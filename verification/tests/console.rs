use nes::addressing_mode::AddressingMode;
use nes::bus::Bus;
use nes::console::{Console, PpuBus};
use nes::debugger::Decoded;
use nes::error::{Error, ParseError};
use nes::instructions::Instruction;
use nes::mapper::Cartridge;
use nes::ppu::Ppu;
use nes::status::Status;

/// An NROM image of 16 kB of PRG-ROM filled with `fill`, with `program` at
/// `$8000` and the reset vector pointing there.
fn nrom_image(fill: u8, program: &[u8]) -> Vec<u8> {
    let mut bytes = vec![0x4e, 0x45, 0x53, 0x1a, 0x01, 0x01, 0, 0, 0, 0, 0, 0, 0, 0, 0, 0];
    let mut prg_rom = vec![fill; 16 * 1024];
    prg_rom[..program.len()].copy_from_slice(program);
    prg_rom[0x3ffc] = 0x00;
    prg_rom[0x3ffd] = 0x80;
    bytes.extend_from_slice(&prg_rom);
    bytes.extend_from_slice(&[0; 8 * 1024]);
    bytes
}

#[test]
fn nrom_of_nops() {
    let mut console = Console::from_bytes(&nrom_image(0xea, &[])).unwrap();
    console.reset();
    assert_eq!(console.cpu.registers.pc, 0x8000);
    assert_eq!(console.cpu.cycle, 8);
    for _ in 0..10 {
        console.step().unwrap();
    }
    assert_eq!(console.cpu.registers.pc, 0x800a);
    assert_eq!(console.cpu.cycle, 28);
    assert_eq!(console.cpu.registers.a, 0);
    assert_eq!(console.cpu.registers.x, 0);
    assert_eq!(console.cpu.registers.y, 0);
    assert_eq!(console.cpu.registers.ps.bits(), 0x20);
}

#[test]
fn console_traces_lda() {
    let mut console = Console::from_bytes(&nrom_image(0xea, &[0xa9, 0x42])).unwrap();
    console.reset();
    let line = console.step().unwrap();
    assert!(line.starts_with("8000  A9 42 "));
    assert_eq!(
        line,
        "8000  A9 42      LDA #$42        A:00 X:00 Y:00 S:FF P:nvUbdizc C:8 Stack: []"
    );
    assert_eq!(console.cpu.registers.a, 0x42);
    assert!(!console.cpu.registers.ps.negative_result);
    assert!(!console.cpu.registers.ps.zero_result);
    assert_eq!(console.cpu.cycle, 10);
}

#[test]
fn console_jumps_through_work_ram() {
    let mut console = Console::from_bytes(&nrom_image(0xea, &[0x6c, 0xff, 0x02])).unwrap();
    console.reset();
    console.cpu.bus.write(0x02ff, 0x34);
    console.cpu.bus.write(0x0200, 0x12);
    console.step().unwrap();
    assert_eq!(console.cpu.registers.pc, 0x1234);
}

#[test]
fn console_reset_twice() {
    let mut console = Console::from_bytes(&nrom_image(0xea, &[])).unwrap();
    console.reset();
    let registers = console.cpu.registers;
    console.reset();
    assert_eq!(console.cpu.registers, registers);
    assert_eq!(console.cpu.cycle, 8);
}

#[test]
fn console_stops_at_an_unimplemented_opcode() {
    let mut console = Console::from_bytes(&nrom_image(0xff, &[0xea])).unwrap();
    console.reset();
    console.step().unwrap();
    assert_eq!(console.step(), Err(Error::UnimplementedOpcode { opcode: 0xff, pc: 0x8001 }));
    assert_eq!(console.cpu.registers.pc, 0x8001);
    assert_eq!(console.cpu.cycle, 10);
}

#[test]
fn console_rejects_bad_images() {
    assert_eq!(Console::from_bytes(&[]).err(), Some(Error::Parse(ParseError::Truncated)));
    let mut image = nrom_image(0xea, &[]);
    image[3] = 0x00;
    assert_eq!(Console::from_bytes(&image).err(), Some(Error::Parse(ParseError::BadMagic)));
    let mut image = nrom_image(0xea, &[]);
    image[6] = 0x30;
    assert_eq!(Console::from_bytes(&image).err(), Some(Error::UnsupportedMapper(3)));
    let mut image = nrom_image(0xea, &[]);
    image.truncate(16 + 16 * 1024 + 100);
    assert_eq!(Console::from_bytes(&image).err(), Some(Error::Parse(ParseError::Truncated)));
}

#[test]
fn work_ram_is_mirrored() {
    let mut console = Console::from_bytes(&nrom_image(0xea, &[])).unwrap();
    console.cpu.bus.write(0x0001, 0x11);
    assert_eq!(console.cpu.bus.read(0x0001), 0x11);
    assert_eq!(console.cpu.bus.read(0x0801), 0x11);
    assert_eq!(console.cpu.bus.read(0x1001), 0x11);
    assert_eq!(console.cpu.bus.read(0x1801), 0x11);
    console.cpu.bus.write(0x1fff, 0x22);
    assert_eq!(console.cpu.bus.read(0x07ff), 0x22);
    assert_eq!(console.cpu.bus.peek(0x0fff), 0x22);
    assert_eq!(console.read_range(0x07fe, 0x0801), vec![0x00, 0x22, 0x00, 0x11]);
    assert_eq!(console.read_range(0x0801, 0x07fe), Vec::<u8>::new());
}

#[test]
fn ppu_and_apu_windows_read_zero() {
    let mut console = Console::from_bytes(&nrom_image(0xea, &[])).unwrap();
    for address in [0x2000u16, 0x2007, 0x3fff, 0x4000, 0x4017, 0x401f, 0x4020, 0x5fff] {
        console.cpu.bus.write(address, 0x55);
        assert_eq!(console.cpu.bus.read(address), 0);
        assert_eq!(console.cpu.bus.peek(address), 0);
    }
}

#[test]
fn cartridge_window_goes_to_the_mapper() {
    let mut console = Console::from_bytes(&nrom_image(0xea, &[0x01, 0x02])).unwrap();
    assert_eq!(console.cpu.bus.read(0x8000), 0x01);
    assert_eq!(console.cpu.bus.read(0xc001), 0x02);
    assert_eq!(console.cpu.bus.peek(0xfffd), 0x80);
    console.cpu.bus.write(0x6000, 0x99);
    assert_eq!(console.cpu.bus.read(0x6000), 0x99);
    console.cpu.bus.write(0x8000, 0x99);
    assert_eq!(console.cpu.bus.read(0x8000), 0x01);
    assert_eq!(console.read_range(0x6000, 0x6001), vec![0x99, 0x00]);
}

#[test]
fn program_writes_to_cartridge_ram() {
    // LDA #$DE, STA $6001, INC $6001, LDX $6001
    let program = [0xa9, 0xde, 0x8d, 0x01, 0x60, 0xee, 0x01, 0x60, 0xae, 0x01, 0x60];
    let mut console = Console::from_bytes(&nrom_image(0xea, &program)).unwrap();
    console.reset();
    for _ in 0..4 {
        console.step().unwrap();
    }
    assert_eq!(console.read_range(0x6000, 0x6002), vec![0x00, 0xdf, 0x00]);
    assert_eq!(console.cpu.registers.x, 0xdf);
    assert_eq!(console.cpu.cycle, 8 + 2 + 4 + 6 + 4);
}

#[test]
fn addressing_mode_lengths() {
    assert_eq!(AddressingMode::Implied.len(), 1);
    assert_eq!(AddressingMode::Accumulator.len(), 1);
    for mode in [
        AddressingMode::Immediate,
        AddressingMode::Relative,
        AddressingMode::ZeroPage,
        AddressingMode::ZeroPageX,
        AddressingMode::ZeroPageY,
        AddressingMode::IndirectZeroPageX,
        AddressingMode::IndirectZeroPageY,
    ] {
        assert_eq!(mode.len(), 2);
    }
    for mode in [
        AddressingMode::Absolute,
        AddressingMode::AbsoluteX,
        AddressingMode::AbsoluteY,
        AddressingMode::IndirectAbsolute,
    ] {
        assert_eq!(mode.len(), 3);
    }
}

#[test]
fn opcode_tables() {
    assert_eq!(AddressingMode::for_opcode(0x00), AddressingMode::Implied);
    assert_eq!(Instruction::for_opcode(0x00), Instruction::Brk);
    assert_eq!(AddressingMode::for_opcode(0xa9), AddressingMode::Immediate);
    assert_eq!(Instruction::for_opcode(0xa9), Instruction::Lda);
    assert_eq!(AddressingMode::for_opcode(0x6c), AddressingMode::IndirectAbsolute);
    assert_eq!(Instruction::for_opcode(0x6c), Instruction::Jmp);
    assert_eq!(AddressingMode::for_opcode(0x96), AddressingMode::ZeroPageY);
    assert_eq!(Instruction::for_opcode(0x96), Instruction::Stx);
    assert_eq!(AddressingMode::for_opcode(0xfe), AddressingMode::AbsoluteX);
    assert_eq!(Instruction::for_opcode(0xfe), Instruction::Inc);
    assert_eq!(AddressingMode::for_opcode(0xff), AddressingMode::Unimplemented);
    assert_eq!(Instruction::for_opcode(0xff), Instruction::Unimplemented);
    let mut documented = 0;
    for opcode in 0..=255u8 {
        let mode = AddressingMode::for_opcode(opcode);
        let instruction = Instruction::for_opcode(opcode);
        assert_eq!(
            mode == AddressingMode::Unimplemented,
            instruction == Instruction::Unimplemented
        );
        if mode != AddressingMode::Unimplemented {
            documented += 1;
            assert_eq!(instruction.as_str().len(), 3);
        }
    }
    assert_eq!(documented, 151);
    assert_eq!(Instruction::Adc.as_str(), "ADC");
    assert_eq!(Instruction::Tya.as_str(), "TYA");
}

#[test]
fn decoded_instruction() {
    let decoded = Decoded::new(0xbd, 0x34, 0x12).unwrap();
    assert_eq!(decoded.opcode, 0xbd);
    assert_eq!(decoded.byte_code, vec![0xbd, 0x34, 0x12]);
    assert_eq!(decoded.mnemonic, "LDA");
    assert_eq!(decoded.addressing_mode, AddressingMode::AbsoluteX);
    assert_eq!(decoded.byte_code(), "BD 34 12");
    assert_eq!(decoded.disassembly(), "LDA $1234,X");
    let decoded = Decoded::new(0xea, 0x34, 0x12).unwrap();
    assert_eq!(decoded.byte_code, vec![0xea]);
    assert_eq!(decoded.disassembly(), "NOP");
    assert!(Decoded::new(0x02, 0, 0).is_none());
}

#[test]
fn status_packs_and_unpacks() {
    for bits in 0..=255u8 {
        assert_eq!(Status::from_bits_truncate(bits).bits(), bits);
    }
    let status = Status::from_bits_truncate(0xa5);
    assert!(status.carry);
    assert!(!status.zero_result);
    assert!(status.interrupt_disable);
    assert!(!status.decimal_mode);
    assert!(!status.break_command);
    assert!(status.unused);
    assert!(!status.overflow);
    assert!(status.negative_result);
    assert_eq!(status.to_text(), "NvUbdIzC");
    assert_eq!(Status::from_bits_truncate(0x5a).to_text(), "nVuBDiZc");
    assert_eq!(Status::CARRY | Status::UNUSED | Status::NEGATIVE_RESULT, 0xa1);
    assert_eq!(
        Status::ZERO_RESULT
            | Status::INTERRUPT_DISABLE
            | Status::DECIMAL_MODE
            | Status::BREAK_COMMAND
            | Status::OVERFLOW,
        0x5e
    );
}

#[test]
fn error_messages() {
    assert_eq!(Error::Parse(ParseError::BadMagic).message(), "bad format");
    assert_eq!(Error::Parse(ParseError::Truncated).message(), "truncated file");
    assert_eq!(Error::Parse(ParseError::SizeTooLarge).message(), "ROM size too large");
    assert_eq!(Error::Parse(ParseError::BadSize).message(), "unsupported ROM size");
    assert_eq!(Error::UnsupportedMapper(4095).message(), "unsupported mapper 4095");
    assert_eq!(Error::UnsupportedMapper(0).message(), "unsupported mapper 0");
    assert_eq!(
        Error::UnimplementedOpcode { opcode: 0x0f, pc: 0x80a1 }.message(),
        "Encountered opcode 0F at 80A1"
    );
}

#[test]
fn ppu_bus_reads_the_pattern_tables() {
    let mut image = nrom_image(0xea, &[]);
    let chr_start = 16 + 16 * 1024;
    image[chr_start] = 0x3c;
    image[chr_start + 0x1fff] = 0x7e;
    let mut bus = PpuBus::new(Cartridge::from_bytes(&image).unwrap());
    assert_eq!(bus.read(0x0000), 0x3c);
    assert_eq!(bus.read(0x1fff), 0x7e);
    assert_eq!(bus.peek(0x1fff), 0x7e);
    assert_eq!(bus.read(0x2000), 0);
    assert_eq!(bus.peek(0x3f00), 0);
    bus.write(0x0000, 0xff);
    bus.write(0x2000, 0xff);
    assert_eq!(bus.read(0x0000), 0x3c);
    assert_eq!(bus.read(0x2000), 0);
    let mut console = Console::from_bytes(&image).unwrap();
    assert_eq!(console.cpu.bus.ppu_bus_read(0x0000), 0x3c);
    assert_eq!(console.cpu.bus.ppu_bus_read(0x1fff), 0x7e);
    assert_eq!(console.cpu.bus.ppu_bus_read(0x2000), 0);
}

#[test]
fn ppu_registers_are_stubs() {
    let image = nrom_image(0xea, &[]);
    let mut ppu = Ppu::new(PpuBus::new(Cartridge::from_bytes(&image).unwrap()));
    ppu.reset();
    ppu.step();
    ppu.write(0x2000, 0x80);
    assert_eq!(ppu.read(0x2000), 0);
    assert_eq!(ppu.read(0x2002), 0);
    assert_eq!(ppu.bus.read(0x0000), 0);
}

#[test]
fn program_sums_a_table() {
    let mut program = vec![
        0xa2, 0x00, // 8000 LDX #$00
        0xa9, 0x00, // 8002 LDA #$00
        0x18, // 8004 CLC
        0x7d, 0x20, 0x80, // 8005 ADC $8020,X
        0xe8, // 8008 INX
        0xe0, 0x05, // 8009 CPX #$05
        0xd0, 0xf7, // 800B BNE $8004
        0x8d, 0x00, 0x60, // 800D STA $6000
    ];
    program.resize(0x20, 0xea);
    program.extend_from_slice(&[1, 2, 3, 4, 5]);
    let mut console = Console::from_bytes(&nrom_image(0xea, &program)).unwrap();
    console.reset();
    let mut lines = Vec::new();
    for _ in 0..28 {
        lines.push(console.step().unwrap());
    }
    assert_eq!(console.read_range(0x6000, 0x6000), vec![15]);
    assert_eq!(console.cpu.registers.a, 15);
    assert_eq!(console.cpu.registers.x, 5);
    assert_eq!(console.cpu.registers.pc, 0x8010);
    assert_eq!(console.cpu.cycle, 8 + 4 + 4 * 13 + 12 + 4);
    assert_eq!(console.cpu.registers.ps.bits(), 0x20 | 0x02 | 0x01);
    assert_eq!(
        lines[3],
        "8005  7D 20 80   ADC $8020,X     A:00 X:00 Y:00 S:FF P:nvUbdiZc C:14 Stack: []"
    );
    assert_eq!(
        lines[6],
        "800B  D0 F7      BNE *-9         A:01 X:01 Y:00 S:FF P:NvUbdizc C:22 Stack: []"
    );
    assert_eq!(
        lines[27],
        "800D  8D 00 60   STA $6000       A:0F X:05 Y:00 S:FF P:nvUbdiZC C:76 Stack: []"
    );
}

#[test]
fn program_calls_a_subroutine() {
    let mut program = vec![
        0x20, 0x10, 0x80, // 8000 JSR $8010
        0x8d, 0x01, 0x60, // 8003 STA $6001
    ];
    program.resize(0x10, 0xea);
    program.extend_from_slice(&[
        0xa9, 0x7f, // 8010 LDA #$7F
        0x48, // 8012 PHA
        0xa9, 0x00, // 8013 LDA #$00
        0x68, // 8015 PLA
        0x60, // 8016 RTS
    ]);
    let mut console = Console::from_bytes(&nrom_image(0xea, &program)).unwrap();
    console.reset();
    for _ in 0..3 {
        console.step().unwrap();
    }
    assert_eq!(
        console.step().unwrap(),
        "8013  A9 00      LDA #$00        A:7F X:00 Y:00 S:FC P:nvUbdizc C:19 Stack: [7F, 02, 80]"
    );
    for _ in 0..3 {
        console.step().unwrap();
    }
    assert_eq!(console.cpu.registers.pc, 0x8006);
    assert_eq!(console.cpu.registers.sp, 0xff);
    assert_eq!(console.read_range(0x6001, 0x6001), vec![0x7f]);
    assert_eq!(console.cpu.cycle, 8 + 6 + 2 + 3 + 2 + 3 + 6 + 4);
}
