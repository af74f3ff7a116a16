use crate::addressing_mode::{mode_of, AddressingMode};
use crate::alu::{add16, wrap16};
use crate::bus::Bus;
use crate::cpu::{Cpu, State};
use crate::debugger::{
    byte_or_zero, decimal, disassembly_text, hex2, hex4, hex_list, padded, push_decimal,
    push_hex2, push_hex4, push_padded, push_stack, stack_text, Decoded,
};
use crate::error::Error;
use crate::instructions::instruction_of;
use vstd::prelude::*;
use vstd::string::*;

verus! {

impl<B: Bus> Cpu<B> {
    /// The bytes of the instruction at the program counter: the opcode and as
    /// many operand bytes as its mode takes, looked at without touching the
    /// bus.
    pub open spec fn decoded_bytes(s: State<B::Model>) -> Seq<u8> {
        seq![
            Self::next_opcode(s),
            B::read_value(s.bus, wrap16(s.registers.pc + 1)),
            B::read_value(s.bus, wrap16(s.registers.pc + 2)),
        ].take(mode_of(Self::next_opcode(s)).size() as int)
    }

    /// The instruction at the program counter as the trace shows it: its
    /// bytes in hexadecimal, and its disassembly.
    pub open spec fn decoded_text(s: State<B::Model>) -> (Seq<char>, Seq<char>) {
        let opcode = Self::next_opcode(s);
        let bytes = Self::decoded_bytes(s);
        (
            hex_list(bytes, " "@),
            disassembly_text(
                instruction_of(opcode).mnemonic(),
                mode_of(opcode),
                byte_or_zero(bytes, 1),
                byte_or_zero(bytes, 2),
            ),
        )
    }

    /// The bytes on the stack, from the one above SP to the end of the stack
    /// page.
    pub open spec fn stack_bytes(s: State<B::Model>) -> Seq<u8> {
        Seq::new(
            (0xff - s.registers.sp) as nat,
            |i: int| B::read_value(s.bus, (0x0100 + s.registers.sp + 1 + i) as u16),
        )
    }

    /// The trace line of the instruction that is about to run: the program
    /// counter, the instruction's bytes in a column of 8, its disassembly in
    /// a column of 11, the registers, the flags, the cycle count in decimal
    /// and the stack.
    pub open spec fn trace_line(s: State<B::Model>) -> Seq<char> {
        hex4(s.registers.pc) + "  "@ + padded(Self::decoded_text(s).0, 8) + "   "@ + padded(
            Self::decoded_text(s).1,
            11,
        ) + "     "@ + "A:"@ + hex2(s.registers.a) + " X:"@ + hex2(s.registers.x) + " Y:"@ + hex2(
            s.registers.y,
        ) + " S:"@ + hex2(s.registers.sp) + " P:"@ + s.registers.ps.letters() + " C:"@ + decimal(
            s.cycle,
        ) + " Stack: "@ + stack_text(Self::stack_bytes(s))
    }

    /// Decodes the instruction at the program counter into its bytes in
    /// hexadecimal and its disassembly. Nothing is read from the bus, only
    /// looked at; a byte that is no documented opcode is an error.
    pub fn decode(&self) -> (outcome: Result<(String, String), Error>)
        requires
            self.wf(),
        ensures
            match outcome {
                Ok(texts) => {
                    &&& mode_of(Self::next_opcode(self@)) != AddressingMode::Unimplemented
                    &&& (texts.0@, texts.1@) == Self::decoded_text(self@)
                },
                Err(error) => {
                    &&& mode_of(Self::next_opcode(self@)) == AddressingMode::Unimplemented
                    &&& error == (Error::UnimplementedOpcode {
                        opcode: Self::next_opcode(self@),
                        pc: self.registers.pc,
                    })
                },
            },
    {
        let opcode = self.bus.peek(self.registers.pc);
        let low_byte = self.bus.peek(add16(self.registers.pc, 1));
        let high_byte = self.bus.peek(add16(self.registers.pc, 2));
        match Decoded::new(opcode, low_byte, high_byte) {
            Some(decoded) => {
                let byte_code = decoded.byte_code();
                let disassembly = decoded.disassembly();
                Ok((byte_code, disassembly))
            },
            None => Err(Error::UnimplementedOpcode { opcode, pc: self.registers.pc }),
        }
    }

    /// Looks at the bytes on the stack, from the one above SP to the end of
    /// the stack page.
    pub fn peek_stack(&self) -> (bytes: Vec<u8>)
        requires
            self.wf(),
        ensures
            bytes@ == Self::stack_bytes(self@),
    {
        let mut bytes: Vec<u8> = Vec::new();
        let mut offset: u16 = self.registers.sp as u16 + 1;
        while offset <= 0xff
            invariant
                self.wf(),
                self.registers.sp < offset <= 0x100,
                bytes@.len() == offset - self.registers.sp - 1,
                forall|i: int|
                    0 <= i < bytes@.len() ==> bytes@[i] == B::read_value(
                        self.bus.model(),
                        (0x0100 + self.registers.sp + 1 + i) as u16,
                    ),
            decreases 0x100 - offset,
        {
            let data = self.bus.peek(0x0100 + offset);
            bytes.push(data);
            offset = offset + 1;
        }
        assert(bytes@ =~= Self::stack_bytes(self@));
        bytes
    }

    /// Renders the trace line of the instruction that is about to run.
    /// Nothing is read from the bus, only looked at, and no cycle is counted.
    pub fn trace(&self) -> (outcome: Result<String, Error>)
        requires
            self.wf(),
        ensures
            match outcome {
                Ok(line) => {
                    &&& mode_of(Self::next_opcode(self@)) != AddressingMode::Unimplemented
                    &&& line@ == Self::trace_line(self@)
                },
                Err(error) => {
                    &&& mode_of(Self::next_opcode(self@)) == AddressingMode::Unimplemented
                    &&& error == (Error::UnimplementedOpcode {
                        opcode: Self::next_opcode(self@),
                        pc: self.registers.pc,
                    })
                },
            },
    {
        let (byte_code, disassembly) = match self.decode() {
            Ok(texts) => texts,
            Err(error) => {
                return Err(error);
            },
        };
        let stack = self.peek_stack();
        let flags = self.registers.ps.to_text();
        let mut line = String::new();
        push_hex4(&mut line, self.registers.pc);
        line.append("  ");
        push_padded(&mut line, &byte_code, 8);
        line.append("   ");
        push_padded(&mut line, &disassembly, 11);
        line.append("     ");
        line.append("A:");
        push_hex2(&mut line, self.registers.a);
        line.append(" X:");
        push_hex2(&mut line, self.registers.x);
        line.append(" Y:");
        push_hex2(&mut line, self.registers.y);
        line.append(" S:");
        push_hex2(&mut line, self.registers.sp);
        line.append(" P:");
        line.append(flags.as_str());
        line.append(" C:");
        push_decimal(&mut line, self.cycle);
        line.append(" Stack: ");
        push_stack(&mut line, &stack);
        assert(line@ =~= Self::trace_line(self@));
        Ok(line)
    }
}

} // verus!
