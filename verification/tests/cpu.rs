use nes::bus::{read_range, Bus};
use nes::cpu::{Cpu, Registers};
use nes::error::Error;
use nes::status::Status;

#[derive(Debug, Clone, Copy, PartialEq)]
enum Access {
    Read(u16, u8),
    Write(u16, u8),
}

/// 64 kB of plain memory that records every access.
struct Ram {
    memory: Vec<u8>,
    log: Vec<Access>,
}

// The model functions of the trait describe a bus to the verifier; nothing
// calls them.
impl Bus for Ram {
    type Model = ();

    fn model(&self) {}

    fn wf(&self) -> bool {
        true
    }

    fn read_value(_m: (), _address: u16) -> u8 {
        0
    }

    fn after_read(_m: (), _address: u16) {}

    fn after_write(_m: (), _address: u16, _data: u8) {}

    fn read(&mut self, address: u16) -> u8 {
        let data = self.memory[address as usize];
        self.log.push(Access::Read(address, data));
        data
    }

    fn write(&mut self, address: u16, data: u8) {
        self.log.push(Access::Write(address, data));
        self.memory[address as usize] = data;
    }

    fn peek(&self, address: u16) -> u8 {
        self.memory[address as usize]
    }
}

/// A processor after reset, with `program` at `origin`.
fn cpu_at(origin: u16, program: &[u8]) -> Cpu<Ram> {
    let mut memory = vec![0u8; 0x10000];
    for (offset, byte) in program.iter().enumerate() {
        memory[origin as usize + offset] = *byte;
    }
    memory[0xfffc] = origin as u8;
    memory[0xfffd] = (origin >> 8) as u8;
    let mut cpu = Cpu::new(Ram { memory, log: vec![] });
    cpu.reset();
    cpu.bus.log.clear();
    cpu
}

fn cpu_with(program: &[u8]) -> Cpu<Ram> {
    cpu_at(0x8000, program)
}

fn run(cpu: &mut Cpu<Ram>, steps: usize) {
    for _ in 0..steps {
        cpu.step().unwrap();
    }
}

#[test]
fn power_on_state() {
    let cpu = Cpu::new(Ram { memory: vec![0; 0x10000], log: vec![] });
    assert_eq!(cpu.registers.pc, 0x0000);
    assert_eq!(cpu.registers.sp, 0xff);
    assert_eq!(cpu.registers.ps.bits(), 0x20);
    assert_eq!(cpu.registers.a, 0);
    assert_eq!(cpu.registers.x, 0);
    assert_eq!(cpu.registers.y, 0);
    assert_eq!(cpu.cycle, 0);
    assert_eq!(cpu.registers, Registers::default());
}

#[test]
fn reset_reads_the_vector_and_seeds_the_cycles() {
    let mut cpu = Cpu::new(Ram { memory: vec![0; 0x10000], log: vec![] });
    cpu.bus.memory[0xfffc] = 0x34;
    cpu.bus.memory[0xfffd] = 0x12;
    cpu.registers.a = 0x11;
    cpu.registers.x = 0x22;
    cpu.registers.y = 0x33;
    cpu.registers.sp = 0x44;
    cpu.reset();
    assert_eq!(cpu.registers.pc, 0x1234);
    assert_eq!(cpu.cycle, 8);
    assert_eq!(cpu.registers.a, 0x11);
    assert_eq!(cpu.registers.x, 0x22);
    assert_eq!(cpu.registers.y, 0x33);
    assert_eq!(cpu.registers.sp, 0x44);
    assert_eq!(cpu.registers.ps.bits(), 0x20);
    assert_eq!(cpu.bus.log, vec![Access::Read(0xfffc, 0x34), Access::Read(0xfffd, 0x12)]);
}

#[test]
fn reset_twice_is_reset_once() {
    let mut cpu = cpu_with(&[0xea, 0xea]);
    run(&mut cpu, 2);
    cpu.reset();
    let registers = cpu.registers;
    let cycle = cpu.cycle;
    cpu.reset();
    assert_eq!(cpu.registers, registers);
    assert_eq!(cpu.cycle, cycle);
}

#[test]
fn lda_immediate_and_its_trace() {
    let mut cpu = cpu_with(&[0xa9, 0x42]);
    let line = cpu.step().unwrap();
    assert_eq!(
        line,
        "8000  A9 42      LDA #$42        A:00 X:00 Y:00 S:FF P:nvUbdizc C:8 Stack: []"
    );
    assert_eq!(cpu.registers.a, 0x42);
    assert!(!cpu.registers.ps.negative_result);
    assert!(!cpu.registers.ps.zero_result);
    assert_eq!(cpu.cycle, 10);
    assert_eq!(cpu.registers.pc, 0x8002);
    assert_eq!(cpu.bus.log, vec![Access::Read(0x8000, 0xa9), Access::Read(0x8001, 0x42)]);
}

#[test]
fn trace_does_not_touch_the_bus() {
    let cpu = cpu_with(&[0xad, 0x34, 0x12]);
    let line = cpu.trace().unwrap();
    assert_eq!(
        line,
        "8000  AD 34 12   LDA $1234       A:00 X:00 Y:00 S:FF P:nvUbdizc C:8 Stack: []"
    );
    assert!(cpu.bus.log.is_empty());
    assert_eq!(cpu.cycle, 8);
}

#[test]
fn trace_shows_registers_flags_and_stack() {
    // LDA #$AB, PHA, SEC, SED, LDX #0, LDY #$80, NOP
    let mut cpu = cpu_with(&[0xa9, 0xab, 0x48, 0x38, 0xf8, 0xa2, 0x00, 0xa0, 0x80, 0xea]);
    run(&mut cpu, 2);
    assert_eq!(
        cpu.trace().unwrap(),
        "8003  38         SEC             A:AB X:00 Y:00 S:FE P:NvUbdizc C:13 Stack: [AB]"
    );
    cpu.bus.memory[0x01fe] = 0x07;
    cpu.registers.sp = 0xfc;
    run(&mut cpu, 4);
    assert_eq!(
        cpu.trace().unwrap(),
        "8009  EA         NOP             A:AB X:00 Y:80 S:FC P:NvUbDizC C:21 Stack: [00, 07, AB]"
    );
}

#[test]
fn decode_each_addressing_mode() {
    let cases: [(&[u8], &str, &str); 16] = [
        (&[0x0d, 0x34, 0x12], "0D 34 12", "ORA $1234"),
        (&[0x1d, 0x34, 0x12], "1D 34 12", "ORA $1234,X"),
        (&[0x19, 0x0f, 0x00], "19 0F 00", "ORA $000F,Y"),
        (&[0x0a], "0A", "ASL A"),
        (&[0x09, 0x0a], "09 0A", "ORA #$0A"),
        (&[0x00], "00", "BRK"),
        (&[0x6c, 0xff, 0x02], "6C FF 02", "JMP ($02FF)"),
        (&[0x01, 0x20], "01 20", "ORA ($20,X)"),
        (&[0x11, 0xfe], "11 FE", "ORA ($FE),Y"),
        (&[0x10, 0x05], "10 05", "BPL *+5"),
        (&[0xd0, 0xfb], "D0 FB", "BNE *-5"),
        (&[0xf0, 0x00], "F0 00", "BEQ *+0"),
        (&[0x30, 0x80], "30 80", "BMI *-128"),
        (&[0x05, 0x44], "05 44", "ORA $44"),
        (&[0x15, 0x44], "15 44", "ORA $44,X"),
        (&[0xb6, 0x44], "B6 44", "LDX $44,Y"),
    ];
    for (program, byte_code, disassembly) in cases {
        let cpu = cpu_with(program);
        let (bytes, text) = cpu.decode().unwrap();
        assert_eq!(bytes, byte_code);
        assert_eq!(text, disassembly);
    }
}

#[test]
fn decode_wraps_at_the_end_of_memory() {
    let mut cpu = cpu_at(0xffff, &[0x4c]);
    cpu.bus.memory[0x0000] = 0xcd;
    cpu.bus.memory[0x0001] = 0xab;
    let (bytes, text) = cpu.decode().unwrap();
    assert_eq!(bytes, "4C CD AB");
    assert_eq!(text, "JMP $ABCD");
}

#[test]
fn unimplemented_opcode_stops_the_step() {
    let mut cpu = cpu_with(&[0x02]);
    let before = cpu.registers;
    assert_eq!(cpu.step(), Err(Error::UnimplementedOpcode { opcode: 0x02, pc: 0x8000 }));
    assert_eq!(cpu.registers, before);
    assert_eq!(cpu.cycle, 8);
    assert!(cpu.bus.log.is_empty());
    assert_eq!(cpu.decode().err(), Some(Error::UnimplementedOpcode { opcode: 0x02, pc: 0x8000 }));
    assert_eq!(cpu.trace().err(), Some(Error::UnimplementedOpcode { opcode: 0x02, pc: 0x8000 }));
}

#[test]
fn jmp_indirect_wraps_inside_the_page() {
    let mut cpu = cpu_with(&[0x6c, 0xff, 0x02]);
    cpu.bus.memory[0x02ff] = 0x34;
    cpu.bus.memory[0x0200] = 0x12;
    cpu.bus.memory[0x0300] = 0x01;
    cpu.step().unwrap();
    assert_eq!(cpu.registers.pc, 0x1234);
    assert_eq!(cpu.cycle, 8 + 5);
    assert_eq!(
        cpu.bus.log,
        vec![
            Access::Read(0x8000, 0x6c),
            Access::Read(0x8001, 0xff),
            Access::Read(0x8002, 0x02),
            Access::Read(0x02ff, 0x34),
            Access::Read(0x0200, 0x12),
        ]
    );
}

#[test]
fn jmp_indirect_without_wrap() {
    let mut cpu = cpu_with(&[0x6c, 0x10, 0x02]);
    cpu.bus.memory[0x0210] = 0x78;
    cpu.bus.memory[0x0211] = 0x56;
    cpu.step().unwrap();
    assert_eq!(cpu.registers.pc, 0x5678);
}

#[test]
fn jmp_absolute() {
    let mut cpu = cpu_with(&[0x4c, 0x21, 0x43]);
    cpu.step().unwrap();
    assert_eq!(cpu.registers.pc, 0x4321);
    assert_eq!(cpu.cycle, 8 + 3);
}

#[test]
fn loads_set_zero_and_negative() {
    // LDA #0, LDX #$80, LDY #$7F
    let mut cpu = cpu_with(&[0xa9, 0x00, 0xa2, 0x80, 0xa0, 0x7f]);
    cpu.step().unwrap();
    assert!(cpu.registers.ps.zero_result);
    assert!(!cpu.registers.ps.negative_result);
    cpu.step().unwrap();
    assert_eq!(cpu.registers.x, 0x80);
    assert!(!cpu.registers.ps.zero_result);
    assert!(cpu.registers.ps.negative_result);
    cpu.step().unwrap();
    assert_eq!(cpu.registers.y, 0x7f);
    assert!(!cpu.registers.ps.zero_result);
    assert!(!cpu.registers.ps.negative_result);
    assert_eq!(cpu.registers.ps.bits(), 0x20);
}

#[test]
fn load_addressing_modes_and_cycles() {
    // (program, x, y, memory cells, expected a, cycles)
    let cases: [(&[u8], u8, u8, &[(u16, u8)], u8, u64); 11] = [
        (&[0xa5, 0x10], 0, 0, &[(0x0010, 0x61)], 0x61, 3),
        (&[0xb5, 0xf0], 0x20, 0, &[(0x0010, 0x62)], 0x62, 4),
        (&[0xad, 0x00, 0x03], 0, 0, &[(0x0300, 0x63)], 0x63, 4),
        (&[0xbd, 0x00, 0x03], 0x10, 0, &[(0x0310, 0x64)], 0x64, 4),
        (&[0xbd, 0xf0, 0x03], 0x10, 0, &[(0x0400, 0x65)], 0x65, 5),
        (&[0xb9, 0x00, 0x03], 0, 0xff, &[(0x03ff, 0x66)], 0x66, 4),
        (&[0xb9, 0x01, 0x03], 0, 0xff, &[(0x0400, 0x67)], 0x67, 5),
        (&[0xa1, 0xfe], 0x01, 0, &[(0x00ff, 0x00), (0x0000, 0x05), (0x0500, 0x68)], 0x68, 6),
        (&[0xb1, 0x20], 0, 0x10, &[(0x0020, 0x00), (0x0021, 0x05), (0x0510, 0x69)], 0x69, 5),
        (&[0xb1, 0x20], 0, 0x10, &[(0x0020, 0xf8), (0x0021, 0x05), (0x0608, 0x6a)], 0x6a, 6),
        (&[0xb1, 0xff], 0, 0x01, &[(0x00ff, 0x10), (0x0000, 0x07), (0x0711, 0x6b)], 0x6b, 5),
    ];
    for (program, x, y, cells, expected, cycles) in cases {
        let mut cpu = cpu_with(program);
        cpu.registers.x = x;
        cpu.registers.y = y;
        for (address, value) in cells {
            cpu.bus.memory[*address as usize] = *value;
        }
        cpu.step().unwrap();
        assert_eq!(cpu.registers.a, expected, "{:02X?}", program);
        assert_eq!(cpu.cycle, 8 + cycles, "{:02X?}", program);
        assert_eq!(cpu.registers.pc, 0x8000 + program.len() as u16);
    }
}

#[test]
fn page_cross_reads_the_wrong_page_first() {
    let mut cpu = cpu_with(&[0xbd, 0xf0, 0x03]);
    cpu.registers.x = 0x10;
    cpu.bus.memory[0x0400] = 0x65;
    cpu.step().unwrap();
    assert_eq!(
        cpu.bus.log,
        vec![
            Access::Read(0x8000, 0xbd),
            Access::Read(0x8001, 0xf0),
            Access::Read(0x8002, 0x03),
            Access::Read(0x0300, 0x00),
            Access::Read(0x0400, 0x65),
        ]
    );
}

#[test]
fn stores_write_their_own_register() {
    // STA $10, STX $11, STY $12, STX $20,Y, STY $30,X
    let mut cpu = cpu_with(&[0x85, 0x10, 0x86, 0x11, 0x84, 0x12, 0x96, 0x20, 0x94, 0x30]);
    cpu.registers.a = 0xaa;
    cpu.registers.x = 0x0b;
    cpu.registers.y = 0x0c;
    run(&mut cpu, 5);
    assert_eq!(cpu.bus.memory[0x10], 0xaa);
    assert_eq!(cpu.bus.memory[0x11], 0x0b);
    assert_eq!(cpu.bus.memory[0x12], 0x0c);
    assert_eq!(cpu.bus.memory[0x2c], 0x0b);
    assert_eq!(cpu.bus.memory[0x3b], 0x0c);
    assert_eq!(cpu.cycle, 8 + 3 + 3 + 3 + 4 + 4);
    assert_eq!(cpu.registers.ps.bits(), 0x20);
}

#[test]
fn indexed_stores_always_pay_the_extra_read() {
    // STA $0300,X without a page cross, STA $0300,Y, STA ($20),Y, STA ($40,X)
    let mut cpu = cpu_with(&[0x9d, 0x00, 0x03, 0x99, 0x00, 0x03, 0x91, 0x20, 0x81, 0x40]);
    cpu.registers.a = 0x77;
    cpu.registers.x = 0x01;
    cpu.registers.y = 0x02;
    cpu.bus.memory[0x20] = 0x00;
    cpu.bus.memory[0x21] = 0x04;
    cpu.bus.memory[0x41] = 0x00;
    cpu.bus.memory[0x42] = 0x05;
    cpu.step().unwrap();
    assert_eq!(cpu.cycle, 8 + 5);
    assert_eq!(cpu.bus.memory[0x0301], 0x77);
    assert_eq!(cpu.bus.log[3], Access::Read(0x0301, 0x00));
    assert_eq!(cpu.bus.log[4], Access::Write(0x0301, 0x77));
    cpu.step().unwrap();
    assert_eq!(cpu.cycle, 8 + 10);
    assert_eq!(cpu.bus.memory[0x0302], 0x77);
    cpu.step().unwrap();
    assert_eq!(cpu.cycle, 8 + 16);
    assert_eq!(cpu.bus.memory[0x0402], 0x77);
    cpu.step().unwrap();
    assert_eq!(cpu.cycle, 8 + 22);
    assert_eq!(cpu.bus.memory[0x0500], 0x77);
}

#[test]
fn adc_sets_carry_and_overflow() {
    // (a, m, carry in, result, carry out, overflow)
    let cases = [
        (0x50u8, 0x50u8, false, 0xa0u8, false, true),
        (0xff, 0x01, false, 0x00, true, false),
        (0x7f, 0x00, true, 0x80, false, true),
        (0x80, 0x80, false, 0x00, true, true),
        (0x01, 0x01, true, 0x03, false, false),
        (0xff, 0xff, true, 0xff, true, false),
    ];
    for (a, m, carry, result, carry_out, overflow) in cases {
        let mut cpu = cpu_with(&[0x69, m]);
        cpu.registers.a = a;
        cpu.registers.ps.carry = carry;
        cpu.step().unwrap();
        assert_eq!(cpu.registers.a, result);
        assert_eq!(cpu.registers.ps.carry, carry_out);
        assert_eq!(cpu.registers.ps.overflow, overflow);
        assert_eq!(cpu.registers.ps.zero_result, result == 0);
        assert_eq!(cpu.registers.ps.negative_result, result & 0x80 != 0);
        assert!(cpu.registers.ps.unused);
    }
}

#[test]
fn sbc_sets_carry_as_inverted_borrow() {
    // (a, m, carry in, result, carry out, overflow)
    let cases = [
        (0x50u8, 0xf0u8, true, 0x60u8, false, false),
        (0x50, 0xb0, true, 0xa0, false, true),
        (0x50, 0x10, true, 0x40, true, false),
        (0x50, 0x10, false, 0x3f, true, false),
        (0x00, 0x00, false, 0xff, false, false),
        (0x80, 0x01, true, 0x7f, true, true),
        (0x10, 0x10, true, 0x00, true, false),
    ];
    for (a, m, carry, result, carry_out, overflow) in cases {
        let mut cpu = cpu_with(&[0xe9, m]);
        cpu.registers.a = a;
        cpu.registers.ps.carry = carry;
        cpu.step().unwrap();
        assert_eq!(cpu.registers.a, result);
        assert_eq!(cpu.registers.ps.carry, carry_out);
        assert_eq!(cpu.registers.ps.overflow, overflow);
        assert_eq!(cpu.registers.ps.zero_result, result == 0);
        assert_eq!(cpu.registers.ps.negative_result, result & 0x80 != 0);
    }
}

#[test]
fn adc_of_the_complement_is_sbc() {
    for a in [0x00u8, 0x01, 0x7f, 0x80, 0xff, 0x35] {
        for m in [0x00u8, 0x01, 0x7f, 0x80, 0xff, 0xc4] {
            for carry in [false, true] {
                let mut adc = cpu_with(&[0x69, !m]);
                adc.registers.a = a;
                adc.registers.ps.carry = carry;
                adc.step().unwrap();
                let mut sbc = cpu_with(&[0xe9, m]);
                sbc.registers.a = a;
                sbc.registers.ps.carry = carry;
                sbc.step().unwrap();
                assert_eq!(adc.registers.a, sbc.registers.a);
                assert_eq!(adc.registers.ps, sbc.registers.ps);
            }
        }
    }
}

#[test]
fn decimal_mode_changes_no_sum() {
    for opcode in [0x69u8, 0xe9] {
        let mut binary = cpu_with(&[opcode, 0x19]);
        binary.registers.a = 0x28;
        binary.step().unwrap();
        let mut decimal = cpu_with(&[0xf8, opcode, 0x19]);
        decimal.registers.a = 0x28;
        run(&mut decimal, 2);
        assert!(decimal.registers.ps.decimal_mode);
        assert_eq!(decimal.registers.a, binary.registers.a);
        assert_eq!(decimal.registers.ps.carry, binary.registers.ps.carry);
        assert_eq!(decimal.registers.ps.overflow, binary.registers.ps.overflow);
    }
}

#[test]
fn bitwise_operations() {
    // AND #$0F, ORA #$80, EOR #$FF
    let mut cpu = cpu_with(&[0x29, 0x0f, 0x09, 0x80, 0x49, 0xff, 0x29, 0x00]);
    cpu.registers.a = 0x3c;
    cpu.step().unwrap();
    assert_eq!(cpu.registers.a, 0x0c);
    cpu.step().unwrap();
    assert_eq!(cpu.registers.a, 0x8c);
    assert!(cpu.registers.ps.negative_result);
    cpu.step().unwrap();
    assert_eq!(cpu.registers.a, 0x73);
    assert!(!cpu.registers.ps.negative_result);
    cpu.step().unwrap();
    assert_eq!(cpu.registers.a, 0x00);
    assert!(cpu.registers.ps.zero_result);
}

#[test]
fn compare_leaves_the_registers() {
    // CMP #$10, CPX #$20, CPY #$30
    let mut cpu = cpu_with(&[0xc9, 0x10, 0xe0, 0x20, 0xc0, 0x30]);
    cpu.registers.a = 0x10;
    cpu.registers.x = 0x1f;
    cpu.registers.y = 0x31;
    cpu.step().unwrap();
    assert!(cpu.registers.ps.carry);
    assert!(cpu.registers.ps.zero_result);
    assert!(!cpu.registers.ps.negative_result);
    cpu.step().unwrap();
    assert!(!cpu.registers.ps.carry);
    assert!(!cpu.registers.ps.zero_result);
    assert!(cpu.registers.ps.negative_result);
    cpu.step().unwrap();
    assert!(cpu.registers.ps.carry);
    assert!(!cpu.registers.ps.zero_result);
    assert!(!cpu.registers.ps.negative_result);
    assert_eq!(cpu.registers.a, 0x10);
    assert_eq!(cpu.registers.x, 0x1f);
    assert_eq!(cpu.registers.y, 0x31);
    assert_eq!(cpu.cycle, 8 + 6);
}

#[test]
fn compare_memory_forms() {
    // CMP $10, CMP $0300,X, CPX $0300, CPY $11
    let mut cpu = cpu_with(&[0xc5, 0x10, 0xdd, 0xff, 0x02, 0xec, 0x00, 0x03, 0xc4, 0x11]);
    cpu.registers.a = 0x40;
    cpu.registers.x = 0x01;
    cpu.registers.y = 0x05;
    cpu.bus.memory[0x10] = 0x41;
    cpu.bus.memory[0x0300] = 0x01;
    cpu.bus.memory[0x11] = 0x05;
    cpu.step().unwrap();
    assert!(!cpu.registers.ps.carry);
    assert!(cpu.registers.ps.negative_result);
    cpu.step().unwrap();
    assert!(cpu.registers.ps.carry);
    assert_eq!(cpu.cycle, 8 + 3 + 5);
    cpu.step().unwrap();
    assert!(cpu.registers.ps.zero_result);
    cpu.step().unwrap();
    assert!(cpu.registers.ps.zero_result);
    assert_eq!(cpu.registers.a, 0x40);
}

#[test]
fn bit_takes_flags_from_memory() {
    // BIT $10, BIT $0300
    let mut cpu = cpu_with(&[0x24, 0x10, 0x2c, 0x00, 0x03]);
    cpu.registers.a = 0x01;
    cpu.bus.memory[0x10] = 0xc0;
    cpu.bus.memory[0x0300] = 0x01;
    cpu.step().unwrap();
    assert!(cpu.registers.ps.zero_result);
    assert!(cpu.registers.ps.negative_result);
    assert!(cpu.registers.ps.overflow);
    assert_eq!(cpu.registers.a, 0x01);
    cpu.step().unwrap();
    assert!(!cpu.registers.ps.zero_result);
    assert!(!cpu.registers.ps.negative_result);
    assert!(!cpu.registers.ps.overflow);
    assert_eq!(cpu.cycle, 8 + 3 + 4);
}

#[test]
fn read_modify_write_reads_once_and_writes_twice() {
    // (opcode, carry in, value, result, carry out)
    let cases = [
        (0xe6u8, false, 0xffu8, 0x00u8, false),
        (0xc6, false, 0x00, 0xff, false),
        (0x06, false, 0x81, 0x02, true),
        (0x46, false, 0x81, 0x40, true),
        (0x26, true, 0x40, 0x81, false),
        (0x66, true, 0x02, 0x81, false),
        (0x66, false, 0x01, 0x00, true),
    ];
    for (opcode, carry, value, result, carry_out) in cases {
        let mut cpu = cpu_with(&[opcode, 0x10]);
        cpu.registers.ps.carry = carry;
        cpu.bus.memory[0x10] = value;
        cpu.step().unwrap();
        assert_eq!(
            cpu.bus.log,
            vec![
                Access::Read(0x8000, opcode),
                Access::Read(0x8001, 0x10),
                Access::Read(0x0010, value),
                Access::Write(0x0010, value),
                Access::Write(0x0010, result),
            ]
        );
        assert_eq!(cpu.cycle, 8 + 5);
        assert_eq!(cpu.registers.ps.zero_result, result == 0);
        assert_eq!(cpu.registers.ps.negative_result, result & 0x80 != 0);
        if opcode != 0xe6 && opcode != 0xc6 {
            assert_eq!(cpu.registers.ps.carry, carry_out);
        }
    }
}

#[test]
fn read_modify_write_addressing_modes() {
    // INC $10,X; INC $0300; INC $0300,X; DEC $0300,X with a page cross
    let mut cpu = cpu_with(&[0xf6, 0x10, 0xee, 0x00, 0x03, 0xfe, 0x00, 0x03, 0xde, 0xff, 0x03]);
    cpu.registers.x = 0x01;
    cpu.bus.memory[0x0400] = 0x10;
    cpu.step().unwrap();
    assert_eq!(cpu.bus.memory[0x11], 1);
    assert_eq!(cpu.cycle, 8 + 6);
    cpu.step().unwrap();
    assert_eq!(cpu.bus.memory[0x0300], 1);
    assert_eq!(cpu.cycle, 8 + 12);
    cpu.step().unwrap();
    assert_eq!(cpu.bus.memory[0x0301], 1);
    assert_eq!(cpu.cycle, 8 + 19);
    cpu.step().unwrap();
    assert_eq!(cpu.bus.memory[0x0400], 0x0f);
    assert_eq!(cpu.cycle, 8 + 26);
}

#[test]
fn shifts_on_the_accumulator() {
    // ASL A, LSR A, ROL A, ROR A
    let mut cpu = cpu_with(&[0x0a, 0x4a, 0x2a, 0x6a]);
    cpu.registers.a = 0xc1;
    cpu.step().unwrap();
    assert_eq!(cpu.registers.a, 0x82);
    assert!(cpu.registers.ps.carry);
    assert!(cpu.registers.ps.negative_result);
    cpu.step().unwrap();
    assert_eq!(cpu.registers.a, 0x41);
    assert!(!cpu.registers.ps.carry);
    cpu.registers.ps.carry = true;
    cpu.step().unwrap();
    assert_eq!(cpu.registers.a, 0x83);
    assert!(!cpu.registers.ps.carry);
    cpu.step().unwrap();
    assert_eq!(cpu.registers.a, 0x41);
    assert!(cpu.registers.ps.carry);
    assert_eq!(cpu.cycle, 8 + 8);
    assert_eq!(cpu.bus.log[1], Access::Read(0x8001, 0x4a));
}

#[test]
fn index_steps_and_transfers() {
    // INX, INY, DEX, DEY, TAX, TAY, TXA, TYA, TSX, TXS
    let mut cpu = cpu_with(&[0xe8, 0xc8, 0xca, 0x88, 0xaa, 0xa8, 0x8a, 0x98, 0xba, 0x9a]);
    cpu.registers.x = 0xff;
    cpu.registers.y = 0x7f;
    cpu.step().unwrap();
    assert_eq!(cpu.registers.x, 0x00);
    assert!(cpu.registers.ps.zero_result);
    assert_eq!(cpu.cycle, 10);
    cpu.step().unwrap();
    assert_eq!(cpu.registers.y, 0x80);
    assert!(cpu.registers.ps.negative_result);
    cpu.step().unwrap();
    assert_eq!(cpu.registers.x, 0xff);
    assert!(cpu.registers.ps.negative_result);
    cpu.step().unwrap();
    assert_eq!(cpu.registers.y, 0x7f);
    assert!(!cpu.registers.ps.negative_result);
    cpu.registers.a = 0x00;
    cpu.step().unwrap();
    assert_eq!(cpu.registers.x, 0x00);
    assert!(cpu.registers.ps.zero_result);
    cpu.registers.a = 0x90;
    cpu.step().unwrap();
    assert_eq!(cpu.registers.y, 0x90);
    assert!(cpu.registers.ps.negative_result);
    cpu.step().unwrap();
    assert_eq!(cpu.registers.a, 0x00);
    assert!(cpu.registers.ps.zero_result);
    cpu.step().unwrap();
    assert_eq!(cpu.registers.a, 0x90);
    cpu.step().unwrap();
    assert_eq!(cpu.registers.x, 0xff);
    assert!(cpu.registers.ps.negative_result);
    cpu.registers.x = 0x00;
    let flags = cpu.registers.ps;
    cpu.step().unwrap();
    assert_eq!(cpu.registers.sp, 0x00);
    assert_eq!(cpu.registers.ps, flags);
    assert_eq!(cpu.cycle, 8 + 20);
}

#[test]
fn flag_instructions() {
    // SEC, SED, SEI, CLC, CLD, CLI, CLV
    let mut cpu = cpu_with(&[0x38, 0xf8, 0x78, 0x18, 0xd8, 0x58, 0xb8]);
    run(&mut cpu, 3);
    assert_eq!(cpu.registers.ps.bits(), 0x20 | 0x01 | 0x08 | 0x04);
    cpu.registers.ps.overflow = true;
    run(&mut cpu, 4);
    assert_eq!(cpu.registers.ps.bits(), 0x20);
    assert_eq!(cpu.cycle, 8 + 14);
}

#[test]
fn set_overflow_pin() {
    let mut cpu = cpu_with(&[0xea]);
    cpu.sev_implied();
    assert!(cpu.registers.ps.overflow);
    assert_eq!(cpu.cycle, 9);
    assert_eq!(cpu.registers.pc, 0x8000);
}

#[test]
fn branch_cycles() {
    // not taken
    let mut cpu = cpu_with(&[0xb0, 0x10]);
    cpu.step().unwrap();
    assert_eq!(cpu.registers.pc, 0x8002);
    assert_eq!(cpu.cycle, 8 + 2);
    // taken, same page
    let mut cpu = cpu_with(&[0x90, 0x10]);
    cpu.step().unwrap();
    assert_eq!(cpu.registers.pc, 0x8012);
    assert_eq!(cpu.cycle, 8 + 3);
    assert_eq!(cpu.bus.log.len(), 3);
    assert_eq!(cpu.bus.log[2], Access::Read(0x8012, 0x00));
    // taken, backwards into the page before
    let mut cpu = cpu_with(&[0x90, 0xfd]);
    cpu.step().unwrap();
    assert_eq!(cpu.registers.pc, 0x7fff);
    assert_eq!(cpu.cycle, 8 + 4);
    assert_eq!(cpu.bus.log[2], Access::Read(0x80ff, 0x00));
    assert_eq!(cpu.bus.log[3], Access::Read(0x7fff, 0x00));
    // taken, forwards into the next page
    let mut cpu = cpu_at(0x80f0, &[0x90, 0x7f]);
    cpu.step().unwrap();
    assert_eq!(cpu.registers.pc, 0x8171);
    assert_eq!(cpu.cycle, 8 + 4);
    assert_eq!(cpu.bus.log[2], Access::Read(0x8071, 0x00));
    assert_eq!(cpu.bus.log[3], Access::Read(0x8171, 0x00));
    // taken, backwards in the same page
    let mut cpu = cpu_at(0x8010, &[0x90, 0xfe]);
    cpu.step().unwrap();
    assert_eq!(cpu.registers.pc, 0x8010);
    assert_eq!(cpu.cycle, 8 + 3);
}

#[test]
fn branch_conditions() {
    // (opcode, flags that take the branch)
    let cases: [(u8, fn(&mut Status), bool); 8] = [
        (0x90, |ps| ps.carry = true, false),
        (0xb0, |ps| ps.carry = true, true),
        (0xd0, |ps| ps.zero_result = true, false),
        (0xf0, |ps| ps.zero_result = true, true),
        (0x10, |ps| ps.negative_result = true, false),
        (0x30, |ps| ps.negative_result = true, true),
        (0x50, |ps| ps.overflow = true, false),
        (0x70, |ps| ps.overflow = true, true),
    ];
    for (opcode, set, taken_when_set) in cases {
        let mut cpu = cpu_with(&[opcode, 0x04]);
        cpu.step().unwrap();
        assert_eq!(cpu.registers.pc == 0x8006, !taken_when_set);
        let mut cpu = cpu_with(&[opcode, 0x04]);
        set(&mut cpu.registers.ps);
        cpu.step().unwrap();
        assert_eq!(cpu.registers.pc == 0x8006, taken_when_set);
    }
}

#[test]
fn jsr_pushes_the_last_byte_and_rts_returns_behind_it() {
    let mut cpu = cpu_with(&[0x20, 0x00, 0x90]);
    cpu.bus.memory[0x9000] = 0x60;
    cpu.step().unwrap();
    assert_eq!(cpu.registers.pc, 0x9000);
    assert_eq!(cpu.registers.sp, 0xfd);
    assert_eq!(cpu.bus.memory[0x01ff], 0x80);
    assert_eq!(cpu.bus.memory[0x01fe], 0x02);
    assert_eq!(cpu.cycle, 8 + 6);
    assert_eq!(
        cpu.bus.log,
        vec![
            Access::Read(0x8000, 0x20),
            Access::Read(0x8001, 0x00),
            Access::Read(0x01ff, 0x00),
            Access::Write(0x01ff, 0x80),
            Access::Write(0x01fe, 0x02),
            Access::Read(0x8002, 0x90),
        ]
    );
    cpu.bus.log.clear();
    cpu.step().unwrap();
    assert_eq!(cpu.registers.pc, 0x8003);
    assert_eq!(cpu.registers.sp, 0xff);
    assert_eq!(cpu.cycle, 8 + 12);
    assert_eq!(
        cpu.bus.log,
        vec![
            Access::Read(0x9000, 0x60),
            Access::Read(0x9001, 0x00),
            Access::Read(0x01fd, 0x00),
            Access::Read(0x01fe, 0x02),
            Access::Read(0x01ff, 0x80),
            Access::Read(0x8002, 0x90),
        ]
    );
}

#[test]
fn brk_pushes_state_and_rti_restores_it() {
    let mut cpu = cpu_with(&[0x00, 0xff]);
    cpu.bus.memory[0xfffe] = 0x00;
    cpu.bus.memory[0xffff] = 0x90;
    cpu.bus.memory[0x9000] = 0x40;
    cpu.registers.ps.carry = true;
    cpu.step().unwrap();
    assert_eq!(cpu.registers.pc, 0x9000);
    assert_eq!(cpu.registers.sp, 0xfc);
    assert_eq!(cpu.bus.memory[0x01ff], 0x80);
    assert_eq!(cpu.bus.memory[0x01fe], 0x02);
    assert_eq!(cpu.bus.memory[0x01fd], 0x20 | 0x10 | 0x01);
    assert!(cpu.registers.ps.interrupt_disable);
    assert!(!cpu.registers.ps.break_command);
    assert_eq!(cpu.cycle, 8 + 7);
    cpu.registers.ps.carry = false;
    cpu.step().unwrap();
    assert_eq!(cpu.registers.pc, 0x8002);
    assert_eq!(cpu.registers.sp, 0xff);
    assert_eq!(cpu.registers.ps.bits(), 0x20 | 0x01);
    assert_eq!(cpu.cycle, 8 + 13);
}

#[test]
fn rti_forces_the_hardwired_bit() {
    let mut cpu = cpu_with(&[0x40]);
    cpu.registers.sp = 0xfc;
    cpu.bus.memory[0x01fd] = 0xdf;
    cpu.bus.memory[0x01fe] = 0x34;
    cpu.bus.memory[0x01ff] = 0x12;
    cpu.step().unwrap();
    assert_eq!(cpu.registers.ps.bits(), 0xef);
    assert_eq!(cpu.registers.pc, 0x1234);
}

#[test]
fn push_and_pull() {
    // PHA, PHP, PLA, PLP
    let mut cpu = cpu_with(&[0x48, 0x08, 0x68, 0x28]);
    cpu.registers.a = 0x80;
    cpu.registers.ps.carry = true;
    cpu.step().unwrap();
    assert_eq!(cpu.bus.memory[0x01ff], 0x80);
    assert_eq!(cpu.registers.sp, 0xfe);
    assert_eq!(cpu.cycle, 8 + 3);
    cpu.step().unwrap();
    assert_eq!(cpu.bus.memory[0x01fe], 0x31);
    assert_eq!(cpu.registers.sp, 0xfd);
    assert!(!cpu.registers.ps.break_command);
    cpu.bus.log.clear();
    cpu.step().unwrap();
    assert_eq!(cpu.registers.a, 0x31);
    assert_eq!(cpu.registers.sp, 0xfe);
    assert!(!cpu.registers.ps.negative_result);
    assert_eq!(
        cpu.bus.log,
        vec![Access::Read(0x8002, 0x68), Access::Read(0x01fd, 0x00), Access::Read(0x01fe, 0x31)]
    );
    cpu.step().unwrap();
    assert_eq!(cpu.registers.ps.bits(), 0xa0);
    assert_eq!(cpu.registers.sp, 0xff);
    assert_eq!(cpu.cycle, 8 + 12);
}

#[test]
fn plp_keeps_the_hardwired_bit_and_takes_break() {
    let mut cpu = cpu_with(&[0x28, 0x28]);
    cpu.registers.sp = 0xfd;
    cpu.bus.memory[0x01fe] = 0x00;
    cpu.bus.memory[0x01ff] = 0xdf;
    cpu.step().unwrap();
    assert_eq!(cpu.registers.ps.bits(), 0x20);
    cpu.step().unwrap();
    assert_eq!(cpu.registers.ps.bits(), 0xff);
}

#[test]
fn stack_wraps_silently() {
    let mut cpu = cpu_with(&[0xea]);
    cpu.registers.sp = 0x01;
    cpu.push(0x11);
    cpu.push(0x22);
    assert_eq!(cpu.registers.sp, 0xff);
    cpu.push(0x33);
    assert_eq!(cpu.registers.sp, 0xfe);
    assert_eq!(cpu.bus.memory[0x0101], 0x11);
    assert_eq!(cpu.bus.memory[0x0100], 0x22);
    assert_eq!(cpu.bus.memory[0x01ff], 0x33);
    assert_eq!(cpu.pull(), 0x33);
    assert_eq!(cpu.pull(), 0x22);
    assert_eq!(cpu.pull(), 0x11);
    assert_eq!(cpu.registers.sp, 0x01);
    assert_eq!(cpu.stack_address(), 0x0101);
}

#[test]
fn many_pushes_return_the_stack_pointer() {
    for start in [0x00u8, 0x7f, 0xff] {
        let mut cpu = cpu_with(&[0xea]);
        cpu.registers.sp = start;
        for count in 0..256u32 {
            cpu.push(count as u8);
        }
        assert_eq!(cpu.registers.sp, start);
        assert_eq!(cpu.cycle, 8 + 256);
        cpu.push(0);
        assert_eq!(cpu.registers.sp, start.wrapping_sub(1));
    }
}

#[test]
fn every_step_counts_two_cycles_and_keeps_the_hardwired_bit() {
    for opcode in 0..=255u8 {
        let mut cpu = cpu_with(&[opcode, 0x00, 0x02]);
        match cpu.step() {
            Ok(_) => {
                assert!(cpu.cycle >= 10, "{:02X}", opcode);
                assert!(cpu.cycle <= 15, "{:02X}", opcode);
                assert!(cpu.registers.ps.unused, "{:02X}", opcode);
                assert_eq!(cpu.registers.ps.bits() & 0x20, 0x20);
            }
            Err(error) => {
                assert_eq!(error, Error::UnimplementedOpcode { opcode, pc: 0x8000 });
                assert_eq!(cpu.cycle, 8);
            }
        }
    }
}

#[test]
fn program_counter_wraps() {
    let mut cpu = cpu_at(0xffff, &[0xa9]);
    cpu.bus.memory[0x0000] = 0x77;
    cpu.step().unwrap();
    assert_eq!(cpu.registers.a, 0x77);
    assert_eq!(cpu.registers.pc, 0x0001);
}

#[test]
fn read_range_reads_in_order() {
    let mut cpu = cpu_with(&[0x01, 0x02, 0x03, 0x04]);
    assert_eq!(read_range(&mut cpu.bus, 0x8001, 0x8003), vec![0x02, 0x03, 0x04]);
    assert_eq!(
        cpu.bus.log,
        vec![Access::Read(0x8001, 0x02), Access::Read(0x8002, 0x03), Access::Read(0x8003, 0x04)]
    );
    assert_eq!(read_range(&mut cpu.bus, 0x8001, 0x8001), vec![0x02]);
    assert_eq!(read_range(&mut cpu.bus, 0x8002, 0x8001), Vec::<u8>::new());
    assert_eq!(read_range(&mut cpu.bus, 0x0000, 0xffff).len(), 0x10000);
    assert_eq!(cpu.cycle, 8);
}

#[test]
fn flag_accessors() {
    let mut cpu = cpu_with(&[0xea]);
    cpu.set_carry_flag(true);
    cpu.set_zero_result_flag(true);
    cpu.set_negative_result_flag(true);
    cpu.set_overflow_flag(true);
    cpu.set_interrupt_disable_flag(true);
    cpu.set_decimal_mode_flag(true);
    assert!(cpu.get_carry_flag());
    assert!(cpu.get_zero_result_flag());
    assert!(cpu.get_negative_result_flag());
    assert!(cpu.get_overflow_flag());
    assert!(cpu.get_interrupt_disable_flag());
    assert_eq!(cpu.registers.ps.bits(), 0xef);
    cpu.set_zero_result_flag_for_value(1);
    cpu.set_negative_result_flag_for_value(0x7f);
    cpu.set_overflow_flag_for_result(0x01, 0x01, 0x02);
    assert_eq!(cpu.registers.ps.bits(), 0x2d);
    cpu.set_zero_result_flag_for_value(0);
    cpu.set_negative_result_flag_for_value(0x80);
    cpu.set_overflow_flag_for_result(0x7f, 0x01, 0x80);
    assert_eq!(cpu.registers.ps.bits(), 0xef);
}

#[test]
fn registers_depend_on_registers_and_operand_only() {
    // ADC, AND, CMP, LDX, SBC, EOR, BIT-free immediate forms and a few implied ones
    for program in [
        vec![0x69u8, 0x37],
        vec![0x29, 0x37],
        vec![0xc9, 0x37],
        vec![0xa2, 0x37],
        vec![0xe9, 0x37],
        vec![0x49, 0x37],
        vec![0xe8],
        vec![0x98],
        vec![0x0a],
    ] {
        let mut first = cpu_at(0x8000, &program);
        let mut second = cpu_at(0x0300, &program);
        second.bus.memory[0x0010] = 0x99;
        second.registers.sp = 0x80;
        second.cycle = 1000;
        for cpu in [&mut first, &mut second] {
            cpu.registers.a = 0x5a;
            cpu.registers.x = 0x01;
            cpu.registers.y = 0xfe;
            cpu.registers.ps.carry = true;
            cpu.step().unwrap();
        }
        assert_eq!(first.registers.a, second.registers.a);
        assert_eq!(first.registers.x, second.registers.x);
        assert_eq!(first.registers.y, second.registers.y);
        assert_eq!(first.registers.ps, second.registers.ps);
    }
}
