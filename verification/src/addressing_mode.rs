use vstd::prelude::*;

verus! {

/// How an instruction finds its operand.
#[derive(Debug, Clone, Copy, PartialEq, Eq, Structural)]
#[non_exhaustive]
pub enum AddressingMode {
    Absolute,
    AbsoluteX,
    AbsoluteY,
    Accumulator,
    Immediate,
    Implied,
    IndirectAbsolute,
    IndirectZeroPageX,
    IndirectZeroPageY,
    Relative,
    ZeroPage,
    ZeroPageX,
    ZeroPageY,
    Unimplemented,
}

/// The addressing mode of each opcode: the opcodes of every mode, and
/// `Unimplemented` for every byte that is no documented opcode.
pub open spec fn mode_of(opcode: u8) -> AddressingMode {
    match opcode {
        0x0D | 0x0E | 0x20 | 0x2C | 0x2D | 0x2E | 0x4C | 0x4D | 0x4E | 0x6D | 0x6E | 0x8C
        | 0x8D | 0x8E | 0xAC | 0xAD | 0xAE | 0xCC | 0xCD | 0xCE | 0xEC | 0xED
        | 0xEE => AddressingMode::Absolute,
        0x1D | 0x1E | 0x3D | 0x3E | 0x5D | 0x5E | 0x7D | 0x7E | 0x9D | 0xBC | 0xBD | 0xDD
        | 0xDE | 0xFD | 0xFE => AddressingMode::AbsoluteX,
        0x19 | 0x39 | 0x59 | 0x79 | 0x99 | 0xB9 | 0xBE | 0xD9
        | 0xF9 => AddressingMode::AbsoluteY,
        0x0A | 0x2A | 0x4A | 0x6A => AddressingMode::Accumulator,
        0x09 | 0x29 | 0x49 | 0x69 | 0xA0 | 0xA2 | 0xA9 | 0xC0 | 0xC9 | 0xE0
        | 0xE9 => AddressingMode::Immediate,
        0x00 | 0x08 | 0x18 | 0x28 | 0x38 | 0x40 | 0x48 | 0x58 | 0x60 | 0x68 | 0x78 | 0x88
        | 0x8A | 0x98 | 0x9A | 0xA8 | 0xAA | 0xB8 | 0xBA | 0xC8 | 0xCA | 0xD8 | 0xE8 | 0xEA
        | 0xF8 => AddressingMode::Implied,
        0x6C => AddressingMode::IndirectAbsolute,
        0x01 | 0x21 | 0x41 | 0x61 | 0x81 | 0xA1 | 0xC1
        | 0xE1 => AddressingMode::IndirectZeroPageX,
        0x11 | 0x31 | 0x51 | 0x71 | 0x91 | 0xB1 | 0xD1
        | 0xF1 => AddressingMode::IndirectZeroPageY,
        0x10 | 0x30 | 0x50 | 0x70 | 0x90 | 0xB0 | 0xD0 | 0xF0 => AddressingMode::Relative,
        0x05 | 0x06 | 0x24 | 0x25 | 0x26 | 0x45 | 0x46 | 0x65 | 0x66 | 0x84 | 0x85 | 0x86
        | 0xA4 | 0xA5 | 0xA6 | 0xC4 | 0xC5 | 0xC6 | 0xE4 | 0xE5
        | 0xE6 => AddressingMode::ZeroPage,
        0x15 | 0x16 | 0x35 | 0x36 | 0x55 | 0x56 | 0x75 | 0x76 | 0x94 | 0x95 | 0xB4 | 0xB5
        | 0xD5 | 0xD6 | 0xF5 | 0xF6 => AddressingMode::ZeroPageX,
        0x96 | 0xB6 => AddressingMode::ZeroPageY,
        _ => AddressingMode::Unimplemented,
    }
}

impl AddressingMode {
    /// The number of bytes that an instruction with this mode takes: one for
    /// the opcode and up to two for the operand.
    pub open spec fn size(self) -> nat {
        match self {
            AddressingMode::Implied | AddressingMode::Accumulator => 1,
            AddressingMode::Absolute
            | AddressingMode::AbsoluteX
            | AddressingMode::AbsoluteY
            | AddressingMode::IndirectAbsolute => 3,
            _ => 2,
        }
    }

    /// The number of bytes an instruction with this addressing mode uses.
    ///
    /// Always at least one byte for the opcode and up to two more bytes for the
    /// operand, if any.
    pub fn len(&self) -> (bytes: usize)
        requires
            *self != AddressingMode::Unimplemented,
        ensures
            bytes == self.size(),
            1 <= bytes <= 3,
    {
        match self {
            AddressingMode::Absolute => 3,
            AddressingMode::AbsoluteX => 3,
            AddressingMode::AbsoluteY => 3,
            AddressingMode::Accumulator => 1,
            AddressingMode::Immediate => 2,
            AddressingMode::Implied => 1,
            AddressingMode::IndirectAbsolute => 3,
            AddressingMode::IndirectZeroPageX => 2,
            AddressingMode::IndirectZeroPageY => 2,
            AddressingMode::Relative => 2,
            AddressingMode::ZeroPage => 2,
            AddressingMode::ZeroPageX => 2,
            AddressingMode::ZeroPageY => 2,
            AddressingMode::Unimplemented => 1,
        }
    }

    pub fn for_opcode(opcode: u8) -> (mode: AddressingMode)
        ensures
            mode == mode_of(opcode),
    {
        match opcode {
            0x00 => AddressingMode::Implied,
            0x01 => AddressingMode::IndirectZeroPageX,
            0x02 => AddressingMode::Unimplemented,
            0x03 => AddressingMode::Unimplemented,
            0x04 => AddressingMode::Unimplemented,
            0x05 => AddressingMode::ZeroPage,
            0x06 => AddressingMode::ZeroPage,
            0x07 => AddressingMode::Unimplemented,
            0x08 => AddressingMode::Implied,
            0x09 => AddressingMode::Immediate,
            0x0A => AddressingMode::Accumulator,
            0x0B => AddressingMode::Unimplemented,
            0x0C => AddressingMode::Unimplemented,
            0x0D => AddressingMode::Absolute,
            0x0E => AddressingMode::Absolute,
            0x0F => AddressingMode::Unimplemented,
            0x10 => AddressingMode::Relative,
            0x11 => AddressingMode::IndirectZeroPageY,
            0x12 => AddressingMode::Unimplemented,
            0x13 => AddressingMode::Unimplemented,
            0x14 => AddressingMode::Unimplemented,
            0x15 => AddressingMode::ZeroPageX,
            0x16 => AddressingMode::ZeroPageX,
            0x17 => AddressingMode::Unimplemented,
            0x18 => AddressingMode::Implied,
            0x19 => AddressingMode::AbsoluteY,
            0x1A => AddressingMode::Unimplemented,
            0x1B => AddressingMode::Unimplemented,
            0x1C => AddressingMode::Unimplemented,
            0x1D => AddressingMode::AbsoluteX,
            0x1E => AddressingMode::AbsoluteX,
            0x1F => AddressingMode::Unimplemented,
            0x20 => AddressingMode::Absolute,
            0x21 => AddressingMode::IndirectZeroPageX,
            0x22 => AddressingMode::Unimplemented,
            0x23 => AddressingMode::Unimplemented,
            0x24 => AddressingMode::ZeroPage,
            0x25 => AddressingMode::ZeroPage,
            0x26 => AddressingMode::ZeroPage,
            0x27 => AddressingMode::Unimplemented,
            0x28 => AddressingMode::Implied,
            0x29 => AddressingMode::Immediate,
            0x2A => AddressingMode::Accumulator,
            0x2B => AddressingMode::Unimplemented,
            0x2C => AddressingMode::Absolute,
            0x2D => AddressingMode::Absolute,
            0x2E => AddressingMode::Absolute,
            0x2F => AddressingMode::Unimplemented,
            0x30 => AddressingMode::Relative,
            0x31 => AddressingMode::IndirectZeroPageY,
            0x32 => AddressingMode::Unimplemented,
            0x33 => AddressingMode::Unimplemented,
            0x34 => AddressingMode::Unimplemented,
            0x35 => AddressingMode::ZeroPageX,
            0x36 => AddressingMode::ZeroPageX,
            0x37 => AddressingMode::Unimplemented,
            0x38 => AddressingMode::Implied,
            0x39 => AddressingMode::AbsoluteY,
            0x3A => AddressingMode::Unimplemented,
            0x3B => AddressingMode::Unimplemented,
            0x3C => AddressingMode::Unimplemented,
            0x3D => AddressingMode::AbsoluteX,
            0x3E => AddressingMode::AbsoluteX,
            0x3F => AddressingMode::Unimplemented,
            0x40 => AddressingMode::Implied,
            0x41 => AddressingMode::IndirectZeroPageX,
            0x42 => AddressingMode::Unimplemented,
            0x43 => AddressingMode::Unimplemented,
            0x44 => AddressingMode::Unimplemented,
            0x45 => AddressingMode::ZeroPage,
            0x46 => AddressingMode::ZeroPage,
            0x47 => AddressingMode::Unimplemented,
            0x48 => AddressingMode::Implied,
            0x49 => AddressingMode::Immediate,
            0x4A => AddressingMode::Accumulator,
            0x4B => AddressingMode::Unimplemented,
            0x4C => AddressingMode::Absolute,
            0x4D => AddressingMode::Absolute,
            0x4E => AddressingMode::Absolute,
            0x4F => AddressingMode::Unimplemented,
            0x50 => AddressingMode::Relative,
            0x51 => AddressingMode::IndirectZeroPageY,
            0x52 => AddressingMode::Unimplemented,
            0x53 => AddressingMode::Unimplemented,
            0x54 => AddressingMode::Unimplemented,
            0x55 => AddressingMode::ZeroPageX,
            0x56 => AddressingMode::ZeroPageX,
            0x57 => AddressingMode::Unimplemented,
            0x58 => AddressingMode::Implied,
            0x59 => AddressingMode::AbsoluteY,
            0x5A => AddressingMode::Unimplemented,
            0x5B => AddressingMode::Unimplemented,
            0x5C => AddressingMode::Unimplemented,
            0x5D => AddressingMode::AbsoluteX,
            0x5E => AddressingMode::AbsoluteX,
            0x5F => AddressingMode::Unimplemented,
            0x60 => AddressingMode::Implied,
            0x61 => AddressingMode::IndirectZeroPageX,
            0x62 => AddressingMode::Unimplemented,
            0x63 => AddressingMode::Unimplemented,
            0x64 => AddressingMode::Unimplemented,
            0x65 => AddressingMode::ZeroPage,
            0x66 => AddressingMode::ZeroPage,
            0x67 => AddressingMode::Unimplemented,
            0x68 => AddressingMode::Implied,
            0x69 => AddressingMode::Immediate,
            0x6A => AddressingMode::Accumulator,
            0x6B => AddressingMode::Unimplemented,
            0x6C => AddressingMode::IndirectAbsolute,
            0x6D => AddressingMode::Absolute,
            0x6E => AddressingMode::Absolute,
            0x6F => AddressingMode::Unimplemented,
            0x70 => AddressingMode::Relative,
            0x71 => AddressingMode::IndirectZeroPageY,
            0x72 => AddressingMode::Unimplemented,
            0x73 => AddressingMode::Unimplemented,
            0x74 => AddressingMode::Unimplemented,
            0x75 => AddressingMode::ZeroPageX,
            0x76 => AddressingMode::ZeroPageX,
            0x77 => AddressingMode::Unimplemented,
            0x78 => AddressingMode::Implied,
            0x79 => AddressingMode::AbsoluteY,
            0x7A => AddressingMode::Unimplemented,
            0x7B => AddressingMode::Unimplemented,
            0x7C => AddressingMode::Unimplemented,
            0x7D => AddressingMode::AbsoluteX,
            0x7E => AddressingMode::AbsoluteX,
            0x7F => AddressingMode::Unimplemented,
            0x80 => AddressingMode::Unimplemented,
            0x81 => AddressingMode::IndirectZeroPageX,
            0x82 => AddressingMode::Unimplemented,
            0x83 => AddressingMode::Unimplemented,
            0x84 => AddressingMode::ZeroPage,
            0x85 => AddressingMode::ZeroPage,
            0x86 => AddressingMode::ZeroPage,
            0x87 => AddressingMode::Unimplemented,
            0x88 => AddressingMode::Implied,
            0x89 => AddressingMode::Unimplemented,
            0x8A => AddressingMode::Implied,
            0x8B => AddressingMode::Unimplemented,
            0x8C => AddressingMode::Absolute,
            0x8D => AddressingMode::Absolute,
            0x8E => AddressingMode::Absolute,
            0x8F => AddressingMode::Unimplemented,
            0x90 => AddressingMode::Relative,
            0x91 => AddressingMode::IndirectZeroPageY,
            0x92 => AddressingMode::Unimplemented,
            0x93 => AddressingMode::Unimplemented,
            0x94 => AddressingMode::ZeroPageX,
            0x95 => AddressingMode::ZeroPageX,
            0x96 => AddressingMode::ZeroPageY,
            0x97 => AddressingMode::Unimplemented,
            0x98 => AddressingMode::Implied,
            0x99 => AddressingMode::AbsoluteY,
            0x9A => AddressingMode::Implied,
            0x9B => AddressingMode::Unimplemented,
            0x9C => AddressingMode::Unimplemented,
            0x9D => AddressingMode::AbsoluteX,
            0x9E => AddressingMode::Unimplemented,
            0x9F => AddressingMode::Unimplemented,
            0xA0 => AddressingMode::Immediate,
            0xA1 => AddressingMode::IndirectZeroPageX,
            0xA2 => AddressingMode::Immediate,
            0xA3 => AddressingMode::Unimplemented,
            0xA4 => AddressingMode::ZeroPage,
            0xA5 => AddressingMode::ZeroPage,
            0xA6 => AddressingMode::ZeroPage,
            0xA7 => AddressingMode::Unimplemented,
            0xA8 => AddressingMode::Implied,
            0xA9 => AddressingMode::Immediate,
            0xAA => AddressingMode::Implied,
            0xAB => AddressingMode::Unimplemented,
            0xAC => AddressingMode::Absolute,
            0xAD => AddressingMode::Absolute,
            0xAE => AddressingMode::Absolute,
            0xAF => AddressingMode::Unimplemented,
            0xB0 => AddressingMode::Relative,
            0xB1 => AddressingMode::IndirectZeroPageY,
            0xB2 => AddressingMode::Unimplemented,
            0xB3 => AddressingMode::Unimplemented,
            0xB4 => AddressingMode::ZeroPageX,
            0xB5 => AddressingMode::ZeroPageX,
            0xB6 => AddressingMode::ZeroPageY,
            0xB7 => AddressingMode::Unimplemented,
            0xB8 => AddressingMode::Implied,
            0xB9 => AddressingMode::AbsoluteY,
            0xBA => AddressingMode::Implied,
            0xBB => AddressingMode::Unimplemented,
            0xBC => AddressingMode::AbsoluteX,
            0xBD => AddressingMode::AbsoluteX,
            0xBE => AddressingMode::AbsoluteY,
            0xBF => AddressingMode::Unimplemented,
            0xC0 => AddressingMode::Immediate,
            0xC1 => AddressingMode::IndirectZeroPageX,
            0xC2 => AddressingMode::Unimplemented,
            0xC3 => AddressingMode::Unimplemented,
            0xC4 => AddressingMode::ZeroPage,
            0xC5 => AddressingMode::ZeroPage,
            0xC6 => AddressingMode::ZeroPage,
            0xC7 => AddressingMode::Unimplemented,
            0xC8 => AddressingMode::Implied,
            0xC9 => AddressingMode::Immediate,
            0xCA => AddressingMode::Implied,
            0xCB => AddressingMode::Unimplemented,
            0xCC => AddressingMode::Absolute,
            0xCD => AddressingMode::Absolute,
            0xCE => AddressingMode::Absolute,
            0xCF => AddressingMode::Unimplemented,
            0xD0 => AddressingMode::Relative,
            0xD1 => AddressingMode::IndirectZeroPageY,
            0xD2 => AddressingMode::Unimplemented,
            0xD3 => AddressingMode::Unimplemented,
            0xD4 => AddressingMode::Unimplemented,
            0xD5 => AddressingMode::ZeroPageX,
            0xD6 => AddressingMode::ZeroPageX,
            0xD7 => AddressingMode::Unimplemented,
            0xD8 => AddressingMode::Implied,
            0xD9 => AddressingMode::AbsoluteY,
            0xDA => AddressingMode::Unimplemented,
            0xDB => AddressingMode::Unimplemented,
            0xDC => AddressingMode::Unimplemented,
            0xDD => AddressingMode::AbsoluteX,
            0xDE => AddressingMode::AbsoluteX,
            0xDF => AddressingMode::Unimplemented,
            0xE0 => AddressingMode::Immediate,
            0xE1 => AddressingMode::IndirectZeroPageX,
            0xE2 => AddressingMode::Unimplemented,
            0xE3 => AddressingMode::Unimplemented,
            0xE4 => AddressingMode::ZeroPage,
            0xE5 => AddressingMode::ZeroPage,
            0xE6 => AddressingMode::ZeroPage,
            0xE7 => AddressingMode::Unimplemented,
            0xE8 => AddressingMode::Implied,
            0xE9 => AddressingMode::Immediate,
            0xEA => AddressingMode::Implied,
            0xEB => AddressingMode::Unimplemented,
            0xEC => AddressingMode::Absolute,
            0xED => AddressingMode::Absolute,
            0xEE => AddressingMode::Absolute,
            0xEF => AddressingMode::Unimplemented,
            0xF0 => AddressingMode::Relative,
            0xF1 => AddressingMode::IndirectZeroPageY,
            0xF2 => AddressingMode::Unimplemented,
            0xF3 => AddressingMode::Unimplemented,
            0xF4 => AddressingMode::Unimplemented,
            0xF5 => AddressingMode::ZeroPageX,
            0xF6 => AddressingMode::ZeroPageX,
            0xF7 => AddressingMode::Unimplemented,
            0xF8 => AddressingMode::Implied,
            0xF9 => AddressingMode::AbsoluteY,
            0xFA => AddressingMode::Unimplemented,
            0xFB => AddressingMode::Unimplemented,
            0xFC => AddressingMode::Unimplemented,
            0xFD => AddressingMode::AbsoluteX,
            0xFE => AddressingMode::AbsoluteX,
            0xFF => AddressingMode::Unimplemented,
        }
    }
}

} // verus!
