use vstd::prelude::*;

verus! {

/// The operation that an opcode stands for.
#[derive(Debug, Clone, Copy, PartialEq, Eq, Structural)]
#[non_exhaustive]
pub enum Instruction {
    Adc,
    And,
    Asl,
    Bcc,
    Bcs,
    Beq,
    Bit,
    Bmi,
    Bne,
    Bpl,
    Brk,
    Bvc,
    Bvs,
    Clc,
    Cld,
    Cli,
    Clv,
    Cmp,
    Cpx,
    Cpy,
    Dec,
    Dex,
    Dey,
    Eor,
    Inc,
    Inx,
    Iny,
    Jmp,
    Jsr,
    Lda,
    Ldx,
    Ldy,
    Lsr,
    Nop,
    Ora,
    Pha,
    Php,
    Pla,
    Plp,
    Rol,
    Ror,
    Rti,
    Rts,
    Sbc,
    Sec,
    Sed,
    Sei,
    Sta,
    Stx,
    Sty,
    Tax,
    Tay,
    Tsx,
    Txa,
    Txs,
    Tya,
    Unimplemented,
}

/// The instruction of each opcode: the opcodes of every instruction, and
/// `Unimplemented` for every byte that is no documented opcode.
pub open spec fn instruction_of(opcode: u8) -> Instruction {
    match opcode {
        0x61 | 0x65 | 0x69 | 0x6D | 0x71 | 0x75 | 0x79 | 0x7D => Instruction::Adc,
        0x21 | 0x25 | 0x29 | 0x2D | 0x31 | 0x35 | 0x39 | 0x3D => Instruction::And,
        0x06 | 0x0A | 0x0E | 0x16 | 0x1E => Instruction::Asl,
        0x90 => Instruction::Bcc,
        0xB0 => Instruction::Bcs,
        0xF0 => Instruction::Beq,
        0x24 | 0x2C => Instruction::Bit,
        0x30 => Instruction::Bmi,
        0xD0 => Instruction::Bne,
        0x10 => Instruction::Bpl,
        0x00 => Instruction::Brk,
        0x50 => Instruction::Bvc,
        0x70 => Instruction::Bvs,
        0x18 => Instruction::Clc,
        0xD8 => Instruction::Cld,
        0x58 => Instruction::Cli,
        0xB8 => Instruction::Clv,
        0xC1 | 0xC5 | 0xC9 | 0xCD | 0xD1 | 0xD5 | 0xD9 | 0xDD => Instruction::Cmp,
        0xE0 | 0xE4 | 0xEC => Instruction::Cpx,
        0xC0 | 0xC4 | 0xCC => Instruction::Cpy,
        0xC6 | 0xCE | 0xD6 | 0xDE => Instruction::Dec,
        0xCA => Instruction::Dex,
        0x88 => Instruction::Dey,
        0x41 | 0x45 | 0x49 | 0x4D | 0x51 | 0x55 | 0x59 | 0x5D => Instruction::Eor,
        0xE6 | 0xEE | 0xF6 | 0xFE => Instruction::Inc,
        0xE8 => Instruction::Inx,
        0xC8 => Instruction::Iny,
        0x4C | 0x6C => Instruction::Jmp,
        0x20 => Instruction::Jsr,
        0xA1 | 0xA5 | 0xA9 | 0xAD | 0xB1 | 0xB5 | 0xB9 | 0xBD => Instruction::Lda,
        0xA2 | 0xA6 | 0xAE | 0xB6 | 0xBE => Instruction::Ldx,
        0xA0 | 0xA4 | 0xAC | 0xB4 | 0xBC => Instruction::Ldy,
        0x46 | 0x4A | 0x4E | 0x56 | 0x5E => Instruction::Lsr,
        0xEA => Instruction::Nop,
        0x01 | 0x05 | 0x09 | 0x0D | 0x11 | 0x15 | 0x19 | 0x1D => Instruction::Ora,
        0x48 => Instruction::Pha,
        0x08 => Instruction::Php,
        0x68 => Instruction::Pla,
        0x28 => Instruction::Plp,
        0x26 | 0x2A | 0x2E | 0x36 | 0x3E => Instruction::Rol,
        0x66 | 0x6A | 0x6E | 0x76 | 0x7E => Instruction::Ror,
        0x40 => Instruction::Rti,
        0x60 => Instruction::Rts,
        0xE1 | 0xE5 | 0xE9 | 0xED | 0xF1 | 0xF5 | 0xF9 | 0xFD => Instruction::Sbc,
        0x38 => Instruction::Sec,
        0xF8 => Instruction::Sed,
        0x78 => Instruction::Sei,
        0x81 | 0x85 | 0x8D | 0x91 | 0x95 | 0x99 | 0x9D => Instruction::Sta,
        0x86 | 0x8E | 0x96 => Instruction::Stx,
        0x84 | 0x8C | 0x94 => Instruction::Sty,
        0xAA => Instruction::Tax,
        0xA8 => Instruction::Tay,
        0xBA => Instruction::Tsx,
        0x8A => Instruction::Txa,
        0x9A => Instruction::Txs,
        0x98 => Instruction::Tya,
        _ => Instruction::Unimplemented,
    }
}

impl Instruction {
    /// The three upper-case letters of the mnemonic.
    pub open spec fn mnemonic(self) -> Seq<char> {
        match self {
            Instruction::Adc => "ADC"@,
            Instruction::And => "AND"@,
            Instruction::Asl => "ASL"@,
            Instruction::Bcc => "BCC"@,
            Instruction::Bcs => "BCS"@,
            Instruction::Beq => "BEQ"@,
            Instruction::Bit => "BIT"@,
            Instruction::Bmi => "BMI"@,
            Instruction::Bne => "BNE"@,
            Instruction::Bpl => "BPL"@,
            Instruction::Brk => "BRK"@,
            Instruction::Bvc => "BVC"@,
            Instruction::Bvs => "BVS"@,
            Instruction::Clc => "CLC"@,
            Instruction::Cld => "CLD"@,
            Instruction::Cli => "CLI"@,
            Instruction::Clv => "CLV"@,
            Instruction::Cmp => "CMP"@,
            Instruction::Cpx => "CPX"@,
            Instruction::Cpy => "CPY"@,
            Instruction::Dec => "DEC"@,
            Instruction::Dex => "DEX"@,
            Instruction::Dey => "DEY"@,
            Instruction::Eor => "EOR"@,
            Instruction::Inc => "INC"@,
            Instruction::Inx => "INX"@,
            Instruction::Iny => "INY"@,
            Instruction::Jmp => "JMP"@,
            Instruction::Jsr => "JSR"@,
            Instruction::Lda => "LDA"@,
            Instruction::Ldx => "LDX"@,
            Instruction::Ldy => "LDY"@,
            Instruction::Lsr => "LSR"@,
            Instruction::Nop => "NOP"@,
            Instruction::Ora => "ORA"@,
            Instruction::Pha => "PHA"@,
            Instruction::Php => "PHP"@,
            Instruction::Pla => "PLA"@,
            Instruction::Plp => "PLP"@,
            Instruction::Rol => "ROL"@,
            Instruction::Ror => "ROR"@,
            Instruction::Rti => "RTI"@,
            Instruction::Rts => "RTS"@,
            Instruction::Sbc => "SBC"@,
            Instruction::Sec => "SEC"@,
            Instruction::Sed => "SED"@,
            Instruction::Sei => "SEI"@,
            Instruction::Sta => "STA"@,
            Instruction::Stx => "STX"@,
            Instruction::Sty => "STY"@,
            Instruction::Tax => "TAX"@,
            Instruction::Tay => "TAY"@,
            Instruction::Tsx => "TSX"@,
            Instruction::Txa => "TXA"@,
            Instruction::Txs => "TXS"@,
            Instruction::Tya => "TYA"@,
            Instruction::Unimplemented => "UNI"@,
        }
    }

    pub fn for_opcode(opcode: u8) -> (instruction: Instruction)
        ensures
            instruction == instruction_of(opcode),
    {
        match opcode {
            0x00 => Instruction::Brk,
            0x01 => Instruction::Ora,
            0x02 => Instruction::Unimplemented,
            0x03 => Instruction::Unimplemented,
            0x04 => Instruction::Unimplemented,
            0x05 => Instruction::Ora,
            0x06 => Instruction::Asl,
            0x07 => Instruction::Unimplemented,
            0x08 => Instruction::Php,
            0x09 => Instruction::Ora,
            0x0A => Instruction::Asl,
            0x0B => Instruction::Unimplemented,
            0x0C => Instruction::Unimplemented,
            0x0D => Instruction::Ora,
            0x0E => Instruction::Asl,
            0x0F => Instruction::Unimplemented,
            0x10 => Instruction::Bpl,
            0x11 => Instruction::Ora,
            0x12 => Instruction::Unimplemented,
            0x13 => Instruction::Unimplemented,
            0x14 => Instruction::Unimplemented,
            0x15 => Instruction::Ora,
            0x16 => Instruction::Asl,
            0x17 => Instruction::Unimplemented,
            0x18 => Instruction::Clc,
            0x19 => Instruction::Ora,
            0x1A => Instruction::Unimplemented,
            0x1B => Instruction::Unimplemented,
            0x1C => Instruction::Unimplemented,
            0x1D => Instruction::Ora,
            0x1E => Instruction::Asl,
            0x1F => Instruction::Unimplemented,
            0x20 => Instruction::Jsr,
            0x21 => Instruction::And,
            0x22 => Instruction::Unimplemented,
            0x23 => Instruction::Unimplemented,
            0x24 => Instruction::Bit,
            0x25 => Instruction::And,
            0x26 => Instruction::Rol,
            0x27 => Instruction::Unimplemented,
            0x28 => Instruction::Plp,
            0x29 => Instruction::And,
            0x2A => Instruction::Rol,
            0x2B => Instruction::Unimplemented,
            0x2C => Instruction::Bit,
            0x2D => Instruction::And,
            0x2E => Instruction::Rol,
            0x2F => Instruction::Unimplemented,
            0x30 => Instruction::Bmi,
            0x31 => Instruction::And,
            0x32 => Instruction::Unimplemented,
            0x33 => Instruction::Unimplemented,
            0x34 => Instruction::Unimplemented,
            0x35 => Instruction::And,
            0x36 => Instruction::Rol,
            0x37 => Instruction::Unimplemented,
            0x38 => Instruction::Sec,
            0x39 => Instruction::And,
            0x3A => Instruction::Unimplemented,
            0x3B => Instruction::Unimplemented,
            0x3C => Instruction::Unimplemented,
            0x3D => Instruction::And,
            0x3E => Instruction::Rol,
            0x3F => Instruction::Unimplemented,
            0x40 => Instruction::Rti,
            0x41 => Instruction::Eor,
            0x42 => Instruction::Unimplemented,
            0x43 => Instruction::Unimplemented,
            0x44 => Instruction::Unimplemented,
            0x45 => Instruction::Eor,
            0x46 => Instruction::Lsr,
            0x47 => Instruction::Unimplemented,
            0x48 => Instruction::Pha,
            0x49 => Instruction::Eor,
            0x4A => Instruction::Lsr,
            0x4B => Instruction::Unimplemented,
            0x4C => Instruction::Jmp,
            0x4D => Instruction::Eor,
            0x4E => Instruction::Lsr,
            0x4F => Instruction::Unimplemented,
            0x50 => Instruction::Bvc,
            0x51 => Instruction::Eor,
            0x52 => Instruction::Unimplemented,
            0x53 => Instruction::Unimplemented,
            0x54 => Instruction::Unimplemented,
            0x55 => Instruction::Eor,
            0x56 => Instruction::Lsr,
            0x57 => Instruction::Unimplemented,
            0x58 => Instruction::Cli,
            0x59 => Instruction::Eor,
            0x5A => Instruction::Unimplemented,
            0x5B => Instruction::Unimplemented,
            0x5C => Instruction::Unimplemented,
            0x5D => Instruction::Eor,
            0x5E => Instruction::Lsr,
            0x5F => Instruction::Unimplemented,
            0x60 => Instruction::Rts,
            0x61 => Instruction::Adc,
            0x62 => Instruction::Unimplemented,
            0x63 => Instruction::Unimplemented,
            0x64 => Instruction::Unimplemented,
            0x65 => Instruction::Adc,
            0x66 => Instruction::Ror,
            0x67 => Instruction::Unimplemented,
            0x68 => Instruction::Pla,
            0x69 => Instruction::Adc,
            0x6A => Instruction::Ror,
            0x6B => Instruction::Unimplemented,
            0x6C => Instruction::Jmp,
            0x6D => Instruction::Adc,
            0x6E => Instruction::Ror,
            0x6F => Instruction::Unimplemented,
            0x70 => Instruction::Bvs,
            0x71 => Instruction::Adc,
            0x72 => Instruction::Unimplemented,
            0x73 => Instruction::Unimplemented,
            0x74 => Instruction::Unimplemented,
            0x75 => Instruction::Adc,
            0x76 => Instruction::Ror,
            0x77 => Instruction::Unimplemented,
            0x78 => Instruction::Sei,
            0x79 => Instruction::Adc,
            0x7A => Instruction::Unimplemented,
            0x7B => Instruction::Unimplemented,
            0x7C => Instruction::Unimplemented,
            0x7D => Instruction::Adc,
            0x7E => Instruction::Ror,
            0x7F => Instruction::Unimplemented,
            0x80 => Instruction::Unimplemented,
            0x81 => Instruction::Sta,
            0x82 => Instruction::Unimplemented,
            0x83 => Instruction::Unimplemented,
            0x84 => Instruction::Sty,
            0x85 => Instruction::Sta,
            0x86 => Instruction::Stx,
            0x87 => Instruction::Unimplemented,
            0x88 => Instruction::Dey,
            0x89 => Instruction::Unimplemented,
            0x8A => Instruction::Txa,
            0x8B => Instruction::Unimplemented,
            0x8C => Instruction::Sty,
            0x8D => Instruction::Sta,
            0x8E => Instruction::Stx,
            0x8F => Instruction::Unimplemented,
            0x90 => Instruction::Bcc,
            0x91 => Instruction::Sta,
            0x92 => Instruction::Unimplemented,
            0x93 => Instruction::Unimplemented,
            0x94 => Instruction::Sty,
            0x95 => Instruction::Sta,
            0x96 => Instruction::Stx,
            0x97 => Instruction::Unimplemented,
            0x98 => Instruction::Tya,
            0x99 => Instruction::Sta,
            0x9A => Instruction::Txs,
            0x9B => Instruction::Unimplemented,
            0x9C => Instruction::Unimplemented,
            0x9D => Instruction::Sta,
            0x9E => Instruction::Unimplemented,
            0x9F => Instruction::Unimplemented,
            0xA0 => Instruction::Ldy,
            0xA1 => Instruction::Lda,
            0xA2 => Instruction::Ldx,
            0xA3 => Instruction::Unimplemented,
            0xA4 => Instruction::Ldy,
            0xA5 => Instruction::Lda,
            0xA6 => Instruction::Ldx,
            0xA7 => Instruction::Unimplemented,
            0xA8 => Instruction::Tay,
            0xA9 => Instruction::Lda,
            0xAA => Instruction::Tax,
            0xAB => Instruction::Unimplemented,
            0xAC => Instruction::Ldy,
            0xAD => Instruction::Lda,
            0xAE => Instruction::Ldx,
            0xAF => Instruction::Unimplemented,
            0xB0 => Instruction::Bcs,
            0xB1 => Instruction::Lda,
            0xB2 => Instruction::Unimplemented,
            0xB3 => Instruction::Unimplemented,
            0xB4 => Instruction::Ldy,
            0xB5 => Instruction::Lda,
            0xB6 => Instruction::Ldx,
            0xB7 => Instruction::Unimplemented,
            0xB8 => Instruction::Clv,
            0xB9 => Instruction::Lda,
            0xBA => Instruction::Tsx,
            0xBB => Instruction::Unimplemented,
            0xBC => Instruction::Ldy,
            0xBD => Instruction::Lda,
            0xBE => Instruction::Ldx,
            0xBF => Instruction::Unimplemented,
            0xC0 => Instruction::Cpy,
            0xC1 => Instruction::Cmp,
            0xC2 => Instruction::Unimplemented,
            0xC3 => Instruction::Unimplemented,
            0xC4 => Instruction::Cpy,
            0xC5 => Instruction::Cmp,
            0xC6 => Instruction::Dec,
            0xC7 => Instruction::Unimplemented,
            0xC8 => Instruction::Iny,
            0xC9 => Instruction::Cmp,
            0xCA => Instruction::Dex,
            0xCB => Instruction::Unimplemented,
            0xCC => Instruction::Cpy,
            0xCD => Instruction::Cmp,
            0xCE => Instruction::Dec,
            0xCF => Instruction::Unimplemented,
            0xD0 => Instruction::Bne,
            0xD1 => Instruction::Cmp,
            0xD2 => Instruction::Unimplemented,
            0xD3 => Instruction::Unimplemented,
            0xD4 => Instruction::Unimplemented,
            0xD5 => Instruction::Cmp,
            0xD6 => Instruction::Dec,
            0xD7 => Instruction::Unimplemented,
            0xD8 => Instruction::Cld,
            0xD9 => Instruction::Cmp,
            0xDA => Instruction::Unimplemented,
            0xDB => Instruction::Unimplemented,
            0xDC => Instruction::Unimplemented,
            0xDD => Instruction::Cmp,
            0xDE => Instruction::Dec,
            0xDF => Instruction::Unimplemented,
            0xE0 => Instruction::Cpx,
            0xE1 => Instruction::Sbc,
            0xE2 => Instruction::Unimplemented,
            0xE3 => Instruction::Unimplemented,
            0xE4 => Instruction::Cpx,
            0xE5 => Instruction::Sbc,
            0xE6 => Instruction::Inc,
            0xE7 => Instruction::Unimplemented,
            0xE8 => Instruction::Inx,
            0xE9 => Instruction::Sbc,
            0xEA => Instruction::Nop,
            0xEB => Instruction::Unimplemented,
            0xEC => Instruction::Cpx,
            0xED => Instruction::Sbc,
            0xEE => Instruction::Inc,
            0xEF => Instruction::Unimplemented,
            0xF0 => Instruction::Beq,
            0xF1 => Instruction::Sbc,
            0xF2 => Instruction::Unimplemented,
            0xF3 => Instruction::Unimplemented,
            0xF4 => Instruction::Unimplemented,
            0xF5 => Instruction::Sbc,
            0xF6 => Instruction::Inc,
            0xF7 => Instruction::Unimplemented,
            0xF8 => Instruction::Sed,
            0xF9 => Instruction::Sbc,
            0xFA => Instruction::Unimplemented,
            0xFB => Instruction::Unimplemented,
            0xFC => Instruction::Unimplemented,
            0xFD => Instruction::Sbc,
            0xFE => Instruction::Inc,
            0xFF => Instruction::Unimplemented,
        }
    }

    pub fn as_str(&self) -> (text: &'static str)
        requires
            *self != Instruction::Unimplemented,
        ensures
            text@ == self.mnemonic(),
    {
        match self {
            Instruction::Adc => "ADC",
            Instruction::And => "AND",
            Instruction::Asl => "ASL",
            Instruction::Bcc => "BCC",
            Instruction::Bcs => "BCS",
            Instruction::Beq => "BEQ",
            Instruction::Bit => "BIT",
            Instruction::Bmi => "BMI",
            Instruction::Bne => "BNE",
            Instruction::Bpl => "BPL",
            Instruction::Brk => "BRK",
            Instruction::Bvc => "BVC",
            Instruction::Bvs => "BVS",
            Instruction::Clc => "CLC",
            Instruction::Cld => "CLD",
            Instruction::Cli => "CLI",
            Instruction::Clv => "CLV",
            Instruction::Cmp => "CMP",
            Instruction::Cpx => "CPX",
            Instruction::Cpy => "CPY",
            Instruction::Dec => "DEC",
            Instruction::Dex => "DEX",
            Instruction::Dey => "DEY",
            Instruction::Eor => "EOR",
            Instruction::Inc => "INC",
            Instruction::Inx => "INX",
            Instruction::Iny => "INY",
            Instruction::Jmp => "JMP",
            Instruction::Jsr => "JSR",
            Instruction::Lda => "LDA",
            Instruction::Ldx => "LDX",
            Instruction::Ldy => "LDY",
            Instruction::Lsr => "LSR",
            Instruction::Nop => "NOP",
            Instruction::Ora => "ORA",
            Instruction::Pha => "PHA",
            Instruction::Php => "PHP",
            Instruction::Pla => "PLA",
            Instruction::Plp => "PLP",
            Instruction::Rol => "ROL",
            Instruction::Ror => "ROR",
            Instruction::Rti => "RTI",
            Instruction::Rts => "RTS",
            Instruction::Sbc => "SBC",
            Instruction::Sec => "SEC",
            Instruction::Sed => "SED",
            Instruction::Sei => "SEI",
            Instruction::Sta => "STA",
            Instruction::Stx => "STX",
            Instruction::Sty => "STY",
            Instruction::Tax => "TAX",
            Instruction::Tay => "TAY",
            Instruction::Tsx => "TSX",
            Instruction::Txa => "TXA",
            Instruction::Txs => "TXS",
            Instruction::Tya => "TYA",
            Instruction::Unimplemented => "UNI",
        }
    }
}

} // verus!
