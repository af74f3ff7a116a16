use crate::addressing_mode::{mode_of, AddressingMode};
use crate::bus::Bus;
use crate::cpu::{Cpu, State};
use crate::error::Error;
use crate::instructions::instruction_of;
use vstd::prelude::*;

verus! {

impl<B: Bus> Cpu<B> {
    /// One whole instruction: the opcode is fetched, then the instruction
    /// that the opcode tables give for it is executed.
    pub open spec fn stepped(s: State<B::Model>) -> State<B::Model> {
        let (s1, opcode) = Self::next_byte(s);
        Self::execute(s1, instruction_of(opcode), mode_of(opcode))
    }

    /// The opcode that the next step fetches.
    pub open spec fn next_opcode(s: State<B::Model>) -> u8 {
        B::read_value(s.bus, s.registers.pc)
    }

    /// Executes the instruction of `opcode`, which has been fetched already.
    pub fn dispatch(&mut self, opcode: u8)
        requires
            old(self).ready(6),
            mode_of(opcode) != AddressingMode::Unimplemented,
        ensures
            final(self).wf(),
            final(self)@ == Self::execute(old(self)@, instruction_of(opcode), mode_of(opcode)),
    {
        match opcode {
            0x00 => self.brk_implied(),
            0x01 => self.ora_indirect_x(),
            0x05 => self.ora_zero_page(),
            0x06 => self.asl_zero_page(),
            0x08 => self.php_implied(),
            0x09 => self.ora_immediate(),
            0x0A => self.asl_accumulator(),
            0x0D => self.ora_absolute(),
            0x0E => self.asl_absolute(),
            0x10 => self.bpl_relative(),
            0x11 => self.ora_indirect_y(),
            0x15 => self.ora_zero_page_x(),
            0x16 => self.asl_zero_page_x(),
            0x18 => self.clc_implied(),
            0x19 => self.ora_absolute_y(),
            0x1D => self.ora_absolute_x(),
            0x1E => self.asl_absolute_x(),
            0x20 => self.jsr_absolute(),
            0x21 => self.and_indirect_x(),
            0x24 => self.bit_zero_page(),
            0x25 => self.and_zero_page(),
            0x26 => self.rol_zero_page(),
            0x28 => self.plp_implied(),
            0x29 => self.and_immediate(),
            0x2A => self.rol_accumulator(),
            0x2C => self.bit_absolute(),
            0x2D => self.and_absolute(),
            0x2E => self.rol_absolute(),
            0x30 => self.bmi_relative(),
            0x31 => self.and_indirect_y(),
            0x35 => self.and_zero_page_x(),
            0x36 => self.rol_zero_page_x(),
            0x38 => self.sec_implied(),
            0x39 => self.and_absolute_y(),
            0x3D => self.and_absolute_x(),
            0x3E => self.rol_absolute_x(),
            0x40 => self.rti_implied(),
            0x41 => self.eor_indirect_x(),
            0x45 => self.eor_zero_page(),
            0x46 => self.lsr_zero_page(),
            0x48 => self.pha_implied(),
            0x49 => self.eor_immediate(),
            0x4A => self.lsr_accumulator(),
            0x4C => self.jmp_absolute(),
            0x4D => self.eor_absolute(),
            0x4E => self.lsr_absolute(),
            0x50 => self.bvc_relative(),
            0x51 => self.eor_indirect_y(),
            0x55 => self.eor_zero_page_x(),
            0x56 => self.lsr_zero_page_x(),
            0x58 => self.cli_implied(),
            0x59 => self.eor_absolute_y(),
            0x5D => self.eor_absolute_x(),
            0x5E => self.lsr_absolute_x(),
            0x60 => self.rts_implied(),
            0x61 => self.adc_indirect_x(),
            0x65 => self.adc_zero_page(),
            0x66 => self.ror_zero_page(),
            0x68 => self.pla_implied(),
            0x69 => self.adc_immediate(),
            0x6A => self.ror_accumulator(),
            0x6C => self.jmp_indirect(),
            0x6D => self.adc_absolute(),
            0x6E => self.ror_absolute(),
            0x70 => self.bvs_relative(),
            0x71 => self.adc_indirect_y(),
            0x75 => self.adc_zero_page_x(),
            0x76 => self.ror_zero_page_x(),
            0x78 => self.sei_implied(),
            0x79 => self.adc_absolute_y(),
            0x7D => self.adc_absolute_x(),
            0x7E => self.ror_absolute_x(),
            0x81 => self.sta_indirect_x(),
            0x84 => self.sty_zero_page(),
            0x85 => self.sta_zero_page(),
            0x86 => self.stx_zero_page(),
            0x88 => self.dey_implied(),
            0x8A => self.txa_implied(),
            0x8C => self.sty_absolute(),
            0x8D => self.sta_absolute(),
            0x8E => self.stx_absolute(),
            0x90 => self.bcc_relative(),
            0x91 => self.sta_indirect_y(),
            0x94 => self.sty_zero_page_x(),
            0x95 => self.sta_zero_page_x(),
            0x96 => self.stx_zero_page_y(),
            0x98 => self.tya_implied(),
            0x99 => self.sta_absolute_y(),
            0x9A => self.txs_implied(),
            0x9D => self.sta_absolute_x(),
            0xA0 => self.ldy_immediate(),
            0xA1 => self.lda_indirect_x(),
            0xA2 => self.ldx_immediate(),
            0xA4 => self.ldy_zero_page(),
            0xA5 => self.lda_zero_page(),
            0xA6 => self.ldx_zero_page(),
            0xA8 => self.tay_implied(),
            0xA9 => self.lda_immediate(),
            0xAA => self.tax_implied(),
            0xAC => self.ldy_absolute(),
            0xAD => self.lda_absolute(),
            0xAE => self.ldx_absolute(),
            0xB0 => self.bcs_relative(),
            0xB1 => self.lda_indirect_y(),
            0xB4 => self.ldy_zero_page_x(),
            0xB5 => self.lda_zero_page_x(),
            0xB6 => self.ldx_zero_page_y(),
            0xB8 => self.clv_implied(),
            0xB9 => self.lda_absolute_y(),
            0xBA => self.tsx_implied(),
            0xBC => self.ldy_absolute_x(),
            0xBD => self.lda_absolute_x(),
            0xBE => self.ldx_absolute_y(),
            0xC0 => self.cpy_immediate(),
            0xC1 => self.cmp_indirect_x(),
            0xC4 => self.cpy_zero_page(),
            0xC5 => self.cmp_zero_page(),
            0xC6 => self.dec_zero_page(),
            0xC8 => self.iny_implied(),
            0xC9 => self.cmp_immediate(),
            0xCA => self.dex_implied(),
            0xCC => self.cpy_absolute(),
            0xCD => self.cmp_absolute(),
            0xCE => self.dec_absolute(),
            0xD0 => self.bne_relative(),
            0xD1 => self.cmp_indirect_y(),
            0xD5 => self.cmp_zero_page_x(),
            0xD6 => self.dec_zero_page_x(),
            0xD8 => self.cld_implied(),
            0xD9 => self.cmp_absolute_y(),
            0xDD => self.cmp_absolute_x(),
            0xDE => self.dec_absolute_x(),
            0xE0 => self.cpx_immediate(),
            0xE1 => self.sbc_indirect_x(),
            0xE4 => self.cpx_zero_page(),
            0xE5 => self.sbc_zero_page(),
            0xE6 => self.inc_zero_page(),
            0xE8 => self.inx_implied(),
            0xE9 => self.sbc_immediate(),
            0xEA => self.nop_implied(),
            0xEC => self.cpx_absolute(),
            0xED => self.sbc_absolute(),
            0xEE => self.inc_absolute(),
            0xF0 => self.beq_relative(),
            0xF1 => self.sbc_indirect_y(),
            0xF5 => self.sbc_zero_page_x(),
            0xF6 => self.inc_zero_page_x(),
            0xF8 => self.sed_implied(),
            0xF9 => self.sbc_absolute_y(),
            0xFD => self.sbc_absolute_x(),
            0xFE => self.inc_absolute_x(),
            _ => {},
        }
    }

    /// Executes one instruction and returns the trace line that describes
    /// the processor before it. A byte that is no documented opcode stops
    /// the step before anything is touched.
    pub fn step(&mut self) -> (outcome: Result<String, Error>)
        requires
            old(self).ready(7),
        ensures
            final(self).wf(),
            final(self).registers.ps.unused,
            match outcome {
                Ok(line) => {
                    &&& mode_of(Self::next_opcode(old(self)@)) != AddressingMode::Unimplemented
                    &&& line@ == Self::trace_line(old(self)@)
                    &&& final(self)@ == Self::stepped(old(self)@)
                    &&& old(self).cycle + 2 <= final(self).cycle <= old(self).cycle + 7
                },
                Err(error) => {
                    &&& mode_of(Self::next_opcode(old(self)@)) == AddressingMode::Unimplemented
                    &&& error == (Error::UnimplementedOpcode {
                        opcode: Self::next_opcode(old(self)@),
                        pc: old(self).registers.pc,
                    })
                    &&& *final(self) == *old(self)
                },
            },
    {
        let line = match self.trace() {
            Ok(line) => line,
            Err(error) => {
                return Err(error);
            },
        };
        proof {
            Self::lemma_step_invariants(old(self)@);
            Self::lemma_step_cycles_bounded(old(self)@);
        }
        let opcode = self.fetch();
        self.dispatch(opcode);
        Ok(line)
    }
}

} // verus!
