use crate::addressing_mode::AddressingMode;
use crate::alu::{
    add8, add_bytes, apply, branch_taken, compared, implied_effect, is_branch, is_implied_effect,
    modifies, modify, previous8, stored, subtract_bytes, takes_operand,
};
use crate::bus::Bus;
use crate::cpu::{Cpu, Registers, State};
use crate::instructions::Instruction;
use crate::status::Status;
use vstd::prelude::*;

verus! {

impl<B: Bus> Cpu<B> {
    /// The read-modify-write cycle at `address`: one read, one write of the
    /// byte as it was read, one write of the modified byte.
    pub open spec fn read_modify_write(
        s: State<B::Model>,
        instruction: Instruction,
        address: u16,
    ) -> State<B::Model> {
        let (s1, value) = Self::bus_read(s, address);
        let s2 = Self::bus_write(s1, address, value);
        let (result, ps) = modify(s2.registers.ps, instruction, value);
        let s3 = State { registers: Registers { ps, ..s2.registers }, ..s2 };
        Self::bus_write(s3, address, result)
    }

    /// What one instruction does once its opcode has been fetched: the bus
    /// accesses of its addressing mode in order, then its own effect.
    pub open spec fn execute(
        s: State<B::Model>,
        instruction: Instruction,
        mode: AddressingMode,
    ) -> State<B::Model> {
        if takes_operand(instruction) {
            let (s1, value) = Self::operand(s, mode);
            State { registers: apply(s1.registers, instruction, value), ..s1 }
        } else if modifies(instruction) {
            if mode == AddressingMode::Accumulator {
                let s1 = Self::dummy_read(s);
                let (result, ps) = modify(s1.registers.ps, instruction, s1.registers.a);
                State { registers: Registers { a: result, ps, ..s1.registers }, ..s1 }
            } else {
                let (s1, address) = Self::effective_address(s, mode, true);
                Self::read_modify_write(s1, instruction, address)
            }
        } else if is_implied_effect(instruction) {
            let s1 = Self::dummy_read(s);
            State { registers: implied_effect(s1.registers, instruction), ..s1 }
        } else if is_branch(instruction) {
            Self::branched(s, branch_taken(s.registers.ps, instruction))
        } else {
            match instruction {
                Instruction::Sta | Instruction::Stx | Instruction::Sty => {
                    let (s1, address) = Self::effective_address(s, mode, true);
                    Self::bus_write(s1, address, stored(s.registers, instruction))
                },
                Instruction::Pha => Self::pushed(Self::dummy_read(s), s.registers.a),
                Instruction::Php => Self::pushed(
                    Self::dummy_read(s),
                    s.registers.ps.pushed().packed(),
                ),
                Instruction::Pla => Self::pulled_accumulator(s),
                Instruction::Plp => Self::pulled_flags(s),
                Instruction::Brk => Self::interrupted(s),
                Instruction::Jsr => Self::called(s),
                Instruction::Rts => Self::returned(s),
                Instruction::Rti => Self::returned_from_interrupt(s),
                Instruction::Jmp => if mode == AddressingMode::IndirectAbsolute {
                    Self::jumped_indirect(s)
                } else {
                    Self::jumped(s)
                },
                _ => s,
            }
        }
    }

    pub fn nop_implied(&mut self)
        requires
            old(self).ready(1),
        ensures
            final(self).wf(),
            final(self)@ == Self::execute(old(self)@, Instruction::Nop, AddressingMode::Implied),
    {
        self.fetch_implied();
    }

    pub fn clc_implied(&mut self)
        requires
            old(self).ready(1),
        ensures
            final(self).wf(),
            final(self)@ == Self::execute(old(self)@, Instruction::Clc, AddressingMode::Implied),
    {
        self.fetch_implied();
        self.set_carry_flag(false);
    }

    pub fn cld_implied(&mut self)
        requires
            old(self).ready(1),
        ensures
            final(self).wf(),
            final(self)@ == Self::execute(old(self)@, Instruction::Cld, AddressingMode::Implied),
    {
        self.fetch_implied();
        self.set_decimal_mode_flag(false);
    }

    pub fn cli_implied(&mut self)
        requires
            old(self).ready(1),
        ensures
            final(self).wf(),
            final(self)@ == Self::execute(old(self)@, Instruction::Cli, AddressingMode::Implied),
    {
        self.fetch_implied();
        self.set_interrupt_disable_flag(false);
    }

    pub fn clv_implied(&mut self)
        requires
            old(self).ready(1),
        ensures
            final(self).wf(),
            final(self)@ == Self::execute(old(self)@, Instruction::Clv, AddressingMode::Implied),
    {
        self.fetch_implied();
        self.set_overflow_flag(false);
    }

    pub fn sec_implied(&mut self)
        requires
            old(self).ready(1),
        ensures
            final(self).wf(),
            final(self)@ == Self::execute(old(self)@, Instruction::Sec, AddressingMode::Implied),
    {
        self.fetch_implied();
        self.set_carry_flag(true);
    }

    pub fn sed_implied(&mut self)
        requires
            old(self).ready(1),
        ensures
            final(self).wf(),
            final(self)@ == Self::execute(old(self)@, Instruction::Sed, AddressingMode::Implied),
    {
        self.fetch_implied();
        self.set_decimal_mode_flag(true);
    }

    pub fn sei_implied(&mut self)
        requires
            old(self).ready(1),
        ensures
            final(self).wf(),
            final(self)@ == Self::execute(old(self)@, Instruction::Sei, AddressingMode::Implied),
    {
        self.fetch_implied();
        self.set_interrupt_disable_flag(true);
    }

    /// Sets the overflow flag after the implied read; no opcode does this, it
    /// stands for the set-overflow pin.
    pub fn sev_implied(&mut self)
        requires
            old(self).ready(1),
        ensures
            final(self).wf(),
            final(self)@ == (State {
                registers: Registers {
                    ps: Status { overflow: true, ..old(self).registers.ps },
                    ..old(self).registers
                },
                ..Self::dummy_read(old(self)@)
            }),
    {
        self.fetch_implied();
        self.set_overflow_flag(true);
    }

    pub fn inx_implied(&mut self)
        requires
            old(self).ready(1),
        ensures
            final(self).wf(),
            final(self)@ == Self::execute(old(self)@, Instruction::Inx, AddressingMode::Implied),
    {
        self.fetch_implied();
        let result = add8(self.registers.x, 1);
        self.set_zero_result_flag_for_value(result);
        self.set_negative_result_flag_for_value(result);
        self.registers.x = result;
    }

    pub fn iny_implied(&mut self)
        requires
            old(self).ready(1),
        ensures
            final(self).wf(),
            final(self)@ == Self::execute(old(self)@, Instruction::Iny, AddressingMode::Implied),
    {
        self.fetch_implied();
        let result = add8(self.registers.y, 1);
        self.set_zero_result_flag_for_value(result);
        self.set_negative_result_flag_for_value(result);
        self.registers.y = result;
    }

    pub fn dex_implied(&mut self)
        requires
            old(self).ready(1),
        ensures
            final(self).wf(),
            final(self)@ == Self::execute(old(self)@, Instruction::Dex, AddressingMode::Implied),
    {
        self.fetch_implied();
        let result = previous8(self.registers.x);
        self.set_zero_result_flag_for_value(result);
        self.set_negative_result_flag_for_value(result);
        self.registers.x = result;
    }

    pub fn dey_implied(&mut self)
        requires
            old(self).ready(1),
        ensures
            final(self).wf(),
            final(self)@ == Self::execute(old(self)@, Instruction::Dey, AddressingMode::Implied),
    {
        self.fetch_implied();
        let result = previous8(self.registers.y);
        self.set_zero_result_flag_for_value(result);
        self.set_negative_result_flag_for_value(result);
        self.registers.y = result;
    }

    pub fn tax_implied(&mut self)
        requires
            old(self).ready(1),
        ensures
            final(self).wf(),
            final(self)@ == Self::execute(old(self)@, Instruction::Tax, AddressingMode::Implied),
    {
        self.fetch_implied();
        let value = self.registers.a;
        self.set_zero_result_flag_for_value(value);
        self.set_negative_result_flag_for_value(value);
        self.registers.x = value;
    }

    pub fn tay_implied(&mut self)
        requires
            old(self).ready(1),
        ensures
            final(self).wf(),
            final(self)@ == Self::execute(old(self)@, Instruction::Tay, AddressingMode::Implied),
    {
        self.fetch_implied();
        let value = self.registers.a;
        self.set_zero_result_flag_for_value(value);
        self.set_negative_result_flag_for_value(value);
        self.registers.y = value;
    }

    pub fn txa_implied(&mut self)
        requires
            old(self).ready(1),
        ensures
            final(self).wf(),
            final(self)@ == Self::execute(old(self)@, Instruction::Txa, AddressingMode::Implied),
    {
        self.fetch_implied();
        let value = self.registers.x;
        self.set_zero_result_flag_for_value(value);
        self.set_negative_result_flag_for_value(value);
        self.registers.a = value;
    }

    pub fn tya_implied(&mut self)
        requires
            old(self).ready(1),
        ensures
            final(self).wf(),
            final(self)@ == Self::execute(old(self)@, Instruction::Tya, AddressingMode::Implied),
    {
        self.fetch_implied();
        let value = self.registers.y;
        self.set_zero_result_flag_for_value(value);
        self.set_negative_result_flag_for_value(value);
        self.registers.a = value;
    }

    pub fn tsx_implied(&mut self)
        requires
            old(self).ready(1),
        ensures
            final(self).wf(),
            final(self)@ == Self::execute(old(self)@, Instruction::Tsx, AddressingMode::Implied),
    {
        self.fetch_implied();
        let value = self.registers.sp;
        self.set_zero_result_flag_for_value(value);
        self.set_negative_result_flag_for_value(value);
        self.registers.x = value;
    }

    pub fn txs_implied(&mut self)
        requires
            old(self).ready(1),
        ensures
            final(self).wf(),
            final(self)@ == Self::execute(old(self)@, Instruction::Txs, AddressingMode::Implied),
    {
        self.fetch_implied();
        self.registers.sp = self.registers.x;
    }

    pub fn inc_zero_page(&mut self)
        requires
            old(self).ready(4),
        ensures
            final(self).wf(),
            final(self)@ == Self::execute(old(self)@, Instruction::Inc, AddressingMode::ZeroPage),
    {
        let address = self.fetch_zero_page();
        self.inc(address);
    }

    pub fn inc_zero_page_x(&mut self)
        requires
            old(self).ready(5),
        ensures
            final(self).wf(),
            final(self)@ == Self::execute(old(self)@, Instruction::Inc, AddressingMode::ZeroPageX),
    {
        let address = self.fetch_zero_page_x();
        self.inc(address);
    }

    pub fn inc_absolute(&mut self)
        requires
            old(self).ready(5),
        ensures
            final(self).wf(),
            final(self)@ == Self::execute(old(self)@, Instruction::Inc, AddressingMode::Absolute),
    {
        let address = self.fetch_absolute();
        self.inc(address);
    }

    pub fn inc_absolute_x(&mut self)
        requires
            old(self).ready(6),
        ensures
            final(self).wf(),
            final(self)@ == Self::execute(old(self)@, Instruction::Inc, AddressingMode::AbsoluteX),
    {
        let address = self.fetch_absolute_x_write();
        self.inc(address);
    }

    pub fn inc(&mut self, address: u16)
        requires
            old(self).ready(3),
        ensures
            final(self).wf(),
            final(self)@ == Self::read_modify_write(old(self)@, Instruction::Inc, address),
    {
        let value = self.read(address);
        self.write(address, value);
        let result = add8(value, 1);
        self.set_zero_result_flag_for_value(result);
        self.set_negative_result_flag_for_value(result);
        self.write(address, result);
    }

    pub fn dec_zero_page(&mut self)
        requires
            old(self).ready(4),
        ensures
            final(self).wf(),
            final(self)@ == Self::execute(old(self)@, Instruction::Dec, AddressingMode::ZeroPage),
    {
        let address = self.fetch_zero_page();
        self.dec(address);
    }

    pub fn dec_zero_page_x(&mut self)
        requires
            old(self).ready(5),
        ensures
            final(self).wf(),
            final(self)@ == Self::execute(old(self)@, Instruction::Dec, AddressingMode::ZeroPageX),
    {
        let address = self.fetch_zero_page_x();
        self.dec(address);
    }

    pub fn dec_absolute(&mut self)
        requires
            old(self).ready(5),
        ensures
            final(self).wf(),
            final(self)@ == Self::execute(old(self)@, Instruction::Dec, AddressingMode::Absolute),
    {
        let address = self.fetch_absolute();
        self.dec(address);
    }

    pub fn dec_absolute_x(&mut self)
        requires
            old(self).ready(6),
        ensures
            final(self).wf(),
            final(self)@ == Self::execute(old(self)@, Instruction::Dec, AddressingMode::AbsoluteX),
    {
        let address = self.fetch_absolute_x_write();
        self.dec(address);
    }

    pub fn dec(&mut self, address: u16)
        requires
            old(self).ready(3),
        ensures
            final(self).wf(),
            final(self)@ == Self::read_modify_write(old(self)@, Instruction::Dec, address),
    {
        let value = self.read(address);
        self.write(address, value);
        let result = previous8(value);
        self.set_zero_result_flag_for_value(result);
        self.set_negative_result_flag_for_value(result);
        self.write(address, result);
    }

    pub fn asl_accumulator(&mut self)
        requires
            old(self).ready(1),
        ensures
            final(self).wf(),
            final(self)@ == Self::execute(
                old(self)@,
                Instruction::Asl,
                AddressingMode::Accumulator,
            ),
    {
        let value = self.fetch_accumulator();
        let result = self.asl(value);
        self.registers.a = result;
    }

    pub fn asl_zero_page(&mut self)
        requires
            old(self).ready(4),
        ensures
            final(self).wf(),
            final(self)@ == Self::execute(old(self)@, Instruction::Asl, AddressingMode::ZeroPage),
    {
        let address = self.fetch_zero_page();
        self.asl_mem(address);
    }

    pub fn asl_zero_page_x(&mut self)
        requires
            old(self).ready(5),
        ensures
            final(self).wf(),
            final(self)@ == Self::execute(old(self)@, Instruction::Asl, AddressingMode::ZeroPageX),
    {
        let address = self.fetch_zero_page_x();
        self.asl_mem(address);
    }

    pub fn asl_absolute(&mut self)
        requires
            old(self).ready(5),
        ensures
            final(self).wf(),
            final(self)@ == Self::execute(old(self)@, Instruction::Asl, AddressingMode::Absolute),
    {
        let address = self.fetch_absolute();
        self.asl_mem(address);
    }

    pub fn asl_absolute_x(&mut self)
        requires
            old(self).ready(6),
        ensures
            final(self).wf(),
            final(self)@ == Self::execute(old(self)@, Instruction::Asl, AddressingMode::AbsoluteX),
    {
        let address = self.fetch_absolute_x_write();
        self.asl_mem(address);
    }

    pub fn asl_mem(&mut self, address: u16)
        requires
            old(self).ready(3),
        ensures
            final(self).wf(),
            final(self)@ == Self::read_modify_write(old(self)@, Instruction::Asl, address),
    {
        let value = self.read(address);
        self.write(address, value);
        let result = self.asl(value);
        self.write(address, result);
    }

    pub fn asl(&mut self, value: u8) -> (result: u8)
        ensures
            result == modify(old(self).registers.ps, Instruction::Asl, value).0,
            *final(self) == (Cpu {
                registers: Registers {
                    ps: modify(old(self).registers.ps, Instruction::Asl, value).1,
                    ..old(self).registers
                },
                ..*old(self)
            }),
    {
        let carry_out = value >= 0x80;
        let result = (value % 128) * 2;
        self.set_carry_flag(carry_out);
        self.set_zero_result_flag_for_value(result);
        self.set_negative_result_flag_for_value(result);
        result
    }

    pub fn lsr_accumulator(&mut self)
        requires
            old(self).ready(1),
        ensures
            final(self).wf(),
            final(self)@ == Self::execute(
                old(self)@,
                Instruction::Lsr,
                AddressingMode::Accumulator,
            ),
    {
        let value = self.fetch_accumulator();
        let result = self.lsr(value);
        self.registers.a = result;
    }

    pub fn lsr_zero_page(&mut self)
        requires
            old(self).ready(4),
        ensures
            final(self).wf(),
            final(self)@ == Self::execute(old(self)@, Instruction::Lsr, AddressingMode::ZeroPage),
    {
        let address = self.fetch_zero_page();
        self.lsr_mem(address);
    }

    pub fn lsr_zero_page_x(&mut self)
        requires
            old(self).ready(5),
        ensures
            final(self).wf(),
            final(self)@ == Self::execute(old(self)@, Instruction::Lsr, AddressingMode::ZeroPageX),
    {
        let address = self.fetch_zero_page_x();
        self.lsr_mem(address);
    }

    pub fn lsr_absolute(&mut self)
        requires
            old(self).ready(5),
        ensures
            final(self).wf(),
            final(self)@ == Self::execute(old(self)@, Instruction::Lsr, AddressingMode::Absolute),
    {
        let address = self.fetch_absolute();
        self.lsr_mem(address);
    }

    pub fn lsr_absolute_x(&mut self)
        requires
            old(self).ready(6),
        ensures
            final(self).wf(),
            final(self)@ == Self::execute(old(self)@, Instruction::Lsr, AddressingMode::AbsoluteX),
    {
        let address = self.fetch_absolute_x_write();
        self.lsr_mem(address);
    }

    pub fn lsr_mem(&mut self, address: u16)
        requires
            old(self).ready(3),
        ensures
            final(self).wf(),
            final(self)@ == Self::read_modify_write(old(self)@, Instruction::Lsr, address),
    {
        let value = self.read(address);
        self.write(address, value);
        let result = self.lsr(value);
        self.write(address, result);
    }

    pub fn lsr(&mut self, value: u8) -> (result: u8)
        ensures
            result == modify(old(self).registers.ps, Instruction::Lsr, value).0,
            *final(self) == (Cpu {
                registers: Registers {
                    ps: modify(old(self).registers.ps, Instruction::Lsr, value).1,
                    ..old(self).registers
                },
                ..*old(self)
            }),
    {
        let carry_out = value % 2 == 1;
        let result = value / 2;
        self.set_carry_flag(carry_out);
        self.set_zero_result_flag_for_value(result);
        self.set_negative_result_flag_for_value(result);
        result
    }

    pub fn rol_accumulator(&mut self)
        requires
            old(self).ready(1),
        ensures
            final(self).wf(),
            final(self)@ == Self::execute(
                old(self)@,
                Instruction::Rol,
                AddressingMode::Accumulator,
            ),
    {
        let value = self.fetch_accumulator();
        let result = self.rol(value);
        self.registers.a = result;
    }

    pub fn rol_zero_page(&mut self)
        requires
            old(self).ready(4),
        ensures
            final(self).wf(),
            final(self)@ == Self::execute(old(self)@, Instruction::Rol, AddressingMode::ZeroPage),
    {
        let address = self.fetch_zero_page();
        self.rol_mem(address);
    }

    pub fn rol_zero_page_x(&mut self)
        requires
            old(self).ready(5),
        ensures
            final(self).wf(),
            final(self)@ == Self::execute(old(self)@, Instruction::Rol, AddressingMode::ZeroPageX),
    {
        let address = self.fetch_zero_page_x();
        self.rol_mem(address);
    }

    pub fn rol_absolute(&mut self)
        requires
            old(self).ready(5),
        ensures
            final(self).wf(),
            final(self)@ == Self::execute(old(self)@, Instruction::Rol, AddressingMode::Absolute),
    {
        let address = self.fetch_absolute();
        self.rol_mem(address);
    }

    pub fn rol_absolute_x(&mut self)
        requires
            old(self).ready(6),
        ensures
            final(self).wf(),
            final(self)@ == Self::execute(old(self)@, Instruction::Rol, AddressingMode::AbsoluteX),
    {
        let address = self.fetch_absolute_x_write();
        self.rol_mem(address);
    }

    pub fn rol_mem(&mut self, address: u16)
        requires
            old(self).ready(3),
        ensures
            final(self).wf(),
            final(self)@ == Self::read_modify_write(old(self)@, Instruction::Rol, address),
    {
        let value = self.read(address);
        self.write(address, value);
        let result = self.rol(value);
        self.write(address, result);
    }

    pub fn rol(&mut self, value: u8) -> (result: u8)
        ensures
            result == modify(old(self).registers.ps, Instruction::Rol, value).0,
            *final(self) == (Cpu {
                registers: Registers {
                    ps: modify(old(self).registers.ps, Instruction::Rol, value).1,
                    ..old(self).registers
                },
                ..*old(self)
            }),
    {
        let carry_in = self.get_carry_flag();
        let carry_out = value >= 0x80;
        let result = (value % 128) * 2;
        let result = if carry_in { result + 0x01 } else { result };
        self.set_carry_flag(carry_out);
        self.set_zero_result_flag_for_value(result);
        self.set_negative_result_flag_for_value(result);
        result
    }

    pub fn ror_accumulator(&mut self)
        requires
            old(self).ready(1),
        ensures
            final(self).wf(),
            final(self)@ == Self::execute(
                old(self)@,
                Instruction::Ror,
                AddressingMode::Accumulator,
            ),
    {
        let value = self.fetch_accumulator();
        let result = self.ror(value);
        self.registers.a = result;
    }

    pub fn ror_zero_page(&mut self)
        requires
            old(self).ready(4),
        ensures
            final(self).wf(),
            final(self)@ == Self::execute(old(self)@, Instruction::Ror, AddressingMode::ZeroPage),
    {
        let address = self.fetch_zero_page();
        self.ror_mem(address);
    }

    pub fn ror_zero_page_x(&mut self)
        requires
            old(self).ready(5),
        ensures
            final(self).wf(),
            final(self)@ == Self::execute(old(self)@, Instruction::Ror, AddressingMode::ZeroPageX),
    {
        let address = self.fetch_zero_page_x();
        self.ror_mem(address);
    }

    pub fn ror_absolute(&mut self)
        requires
            old(self).ready(5),
        ensures
            final(self).wf(),
            final(self)@ == Self::execute(old(self)@, Instruction::Ror, AddressingMode::Absolute),
    {
        let address = self.fetch_absolute();
        self.ror_mem(address);
    }

    pub fn ror_absolute_x(&mut self)
        requires
            old(self).ready(6),
        ensures
            final(self).wf(),
            final(self)@ == Self::execute(old(self)@, Instruction::Ror, AddressingMode::AbsoluteX),
    {
        let address = self.fetch_absolute_x_write();
        self.ror_mem(address);
    }

    pub fn ror_mem(&mut self, address: u16)
        requires
            old(self).ready(3),
        ensures
            final(self).wf(),
            final(self)@ == Self::read_modify_write(old(self)@, Instruction::Ror, address),
    {
        let value = self.read(address);
        self.write(address, value);
        let result = self.ror(value);
        self.write(address, result);
    }

    pub fn ror(&mut self, value: u8) -> (result: u8)
        ensures
            result == modify(old(self).registers.ps, Instruction::Ror, value).0,
            *final(self) == (Cpu {
                registers: Registers {
                    ps: modify(old(self).registers.ps, Instruction::Ror, value).1,
                    ..old(self).registers
                },
                ..*old(self)
            }),
    {
        let carry_in = self.get_carry_flag();
        let carry_out = value % 2 == 1;
        let result = value / 2;
        let result = if carry_in { result + 0x80 } else { result };
        self.set_carry_flag(carry_out);
        self.set_zero_result_flag_for_value(result);
        self.set_negative_result_flag_for_value(result);
        result
    }

    pub fn lda_immediate(&mut self)
        requires
            old(self).ready(1),
        ensures
            final(self).wf(),
            final(self)@ == Self::execute(old(self)@, Instruction::Lda, AddressingMode::Immediate),
    {
        let value = self.fetch_immediate();
        self.lda(value);
    }

    pub fn lda_zero_page(&mut self)
        requires
            old(self).ready(2),
        ensures
            final(self).wf(),
            final(self)@ == Self::execute(old(self)@, Instruction::Lda, AddressingMode::ZeroPage),
    {
        let address = self.fetch_zero_page();
        let value = self.read(address);
        self.lda(value);
    }

    pub fn lda_zero_page_x(&mut self)
        requires
            old(self).ready(3),
        ensures
            final(self).wf(),
            final(self)@ == Self::execute(old(self)@, Instruction::Lda, AddressingMode::ZeroPageX),
    {
        let address = self.fetch_zero_page_x();
        let value = self.read(address);
        self.lda(value);
    }

    pub fn lda_absolute(&mut self)
        requires
            old(self).ready(3),
        ensures
            final(self).wf(),
            final(self)@ == Self::execute(old(self)@, Instruction::Lda, AddressingMode::Absolute),
    {
        let address = self.fetch_absolute();
        let value = self.read(address);
        self.lda(value);
    }

    pub fn lda_absolute_x(&mut self)
        requires
            old(self).ready(4),
        ensures
            final(self).wf(),
            final(self)@ == Self::execute(old(self)@, Instruction::Lda, AddressingMode::AbsoluteX),
    {
        let address = self.fetch_absolute_x_read();
        let value = self.read(address);
        self.lda(value);
    }

    pub fn lda_absolute_y(&mut self)
        requires
            old(self).ready(4),
        ensures
            final(self).wf(),
            final(self)@ == Self::execute(old(self)@, Instruction::Lda, AddressingMode::AbsoluteY),
    {
        let address = self.fetch_absolute_y_read();
        let value = self.read(address);
        self.lda(value);
    }

    pub fn lda_indirect_x(&mut self)
        requires
            old(self).ready(5),
        ensures
            final(self).wf(),
            final(self)@ == Self::execute(
                old(self)@,
                Instruction::Lda,
                AddressingMode::IndirectZeroPageX,
            ),
    {
        let address = self.fetch_indirect_x();
        let value = self.read(address);
        self.lda(value);
    }

    pub fn lda_indirect_y(&mut self)
        requires
            old(self).ready(5),
        ensures
            final(self).wf(),
            final(self)@ == Self::execute(
                old(self)@,
                Instruction::Lda,
                AddressingMode::IndirectZeroPageY,
            ),
    {
        let address = self.fetch_indirect_y_read();
        let value = self.read(address);
        self.lda(value);
    }

    pub fn lda(&mut self, value: u8)
        ensures
            *final(self) == (Cpu {
                registers: apply(old(self).registers, Instruction::Lda, value),
                ..*old(self)
            }),
    {
        self.set_zero_result_flag_for_value(value);
        self.set_negative_result_flag_for_value(value);
        self.registers.a = value;
    }

    pub fn ldx_immediate(&mut self)
        requires
            old(self).ready(1),
        ensures
            final(self).wf(),
            final(self)@ == Self::execute(old(self)@, Instruction::Ldx, AddressingMode::Immediate),
    {
        let value = self.fetch_immediate();
        self.ldx(value);
    }

    pub fn ldx_zero_page(&mut self)
        requires
            old(self).ready(2),
        ensures
            final(self).wf(),
            final(self)@ == Self::execute(old(self)@, Instruction::Ldx, AddressingMode::ZeroPage),
    {
        let address = self.fetch_zero_page();
        let value = self.read(address);
        self.ldx(value);
    }

    pub fn ldx_zero_page_y(&mut self)
        requires
            old(self).ready(3),
        ensures
            final(self).wf(),
            final(self)@ == Self::execute(old(self)@, Instruction::Ldx, AddressingMode::ZeroPageY),
    {
        let address = self.fetch_zero_page_y();
        let value = self.read(address);
        self.ldx(value);
    }

    pub fn ldx_absolute(&mut self)
        requires
            old(self).ready(3),
        ensures
            final(self).wf(),
            final(self)@ == Self::execute(old(self)@, Instruction::Ldx, AddressingMode::Absolute),
    {
        let address = self.fetch_absolute();
        let value = self.read(address);
        self.ldx(value);
    }

    pub fn ldx_absolute_y(&mut self)
        requires
            old(self).ready(4),
        ensures
            final(self).wf(),
            final(self)@ == Self::execute(old(self)@, Instruction::Ldx, AddressingMode::AbsoluteY),
    {
        let address = self.fetch_absolute_y_read();
        let value = self.read(address);
        self.ldx(value);
    }

    pub fn ldx(&mut self, value: u8)
        ensures
            *final(self) == (Cpu {
                registers: apply(old(self).registers, Instruction::Ldx, value),
                ..*old(self)
            }),
    {
        self.set_zero_result_flag_for_value(value);
        self.set_negative_result_flag_for_value(value);
        self.registers.x = value;
    }

    pub fn ldy_immediate(&mut self)
        requires
            old(self).ready(1),
        ensures
            final(self).wf(),
            final(self)@ == Self::execute(old(self)@, Instruction::Ldy, AddressingMode::Immediate),
    {
        let value = self.fetch_immediate();
        self.ldy(value);
    }

    pub fn ldy_zero_page(&mut self)
        requires
            old(self).ready(2),
        ensures
            final(self).wf(),
            final(self)@ == Self::execute(old(self)@, Instruction::Ldy, AddressingMode::ZeroPage),
    {
        let address = self.fetch_zero_page();
        let value = self.read(address);
        self.ldy(value);
    }

    pub fn ldy_zero_page_x(&mut self)
        requires
            old(self).ready(3),
        ensures
            final(self).wf(),
            final(self)@ == Self::execute(old(self)@, Instruction::Ldy, AddressingMode::ZeroPageX),
    {
        let address = self.fetch_zero_page_x();
        let value = self.read(address);
        self.ldy(value);
    }

    pub fn ldy_absolute(&mut self)
        requires
            old(self).ready(3),
        ensures
            final(self).wf(),
            final(self)@ == Self::execute(old(self)@, Instruction::Ldy, AddressingMode::Absolute),
    {
        let address = self.fetch_absolute();
        let value = self.read(address);
        self.ldy(value);
    }

    pub fn ldy_absolute_x(&mut self)
        requires
            old(self).ready(4),
        ensures
            final(self).wf(),
            final(self)@ == Self::execute(old(self)@, Instruction::Ldy, AddressingMode::AbsoluteX),
    {
        let address = self.fetch_absolute_x_read();
        let value = self.read(address);
        self.ldy(value);
    }

    pub fn ldy(&mut self, value: u8)
        ensures
            *final(self) == (Cpu {
                registers: apply(old(self).registers, Instruction::Ldy, value),
                ..*old(self)
            }),
    {
        self.set_zero_result_flag_for_value(value);
        self.set_negative_result_flag_for_value(value);
        self.registers.y = value;
    }

    pub fn adc_immediate(&mut self)
        requires
            old(self).ready(1),
        ensures
            final(self).wf(),
            final(self)@ == Self::execute(old(self)@, Instruction::Adc, AddressingMode::Immediate),
    {
        let value = self.fetch_immediate();
        self.adc(value);
    }

    pub fn adc_zero_page(&mut self)
        requires
            old(self).ready(2),
        ensures
            final(self).wf(),
            final(self)@ == Self::execute(old(self)@, Instruction::Adc, AddressingMode::ZeroPage),
    {
        let address = self.fetch_zero_page();
        let value = self.read(address);
        self.adc(value);
    }

    pub fn adc_zero_page_x(&mut self)
        requires
            old(self).ready(3),
        ensures
            final(self).wf(),
            final(self)@ == Self::execute(old(self)@, Instruction::Adc, AddressingMode::ZeroPageX),
    {
        let address = self.fetch_zero_page_x();
        let value = self.read(address);
        self.adc(value);
    }

    pub fn adc_absolute(&mut self)
        requires
            old(self).ready(3),
        ensures
            final(self).wf(),
            final(self)@ == Self::execute(old(self)@, Instruction::Adc, AddressingMode::Absolute),
    {
        let address = self.fetch_absolute();
        let value = self.read(address);
        self.adc(value);
    }

    pub fn adc_absolute_x(&mut self)
        requires
            old(self).ready(4),
        ensures
            final(self).wf(),
            final(self)@ == Self::execute(old(self)@, Instruction::Adc, AddressingMode::AbsoluteX),
    {
        let address = self.fetch_absolute_x_read();
        let value = self.read(address);
        self.adc(value);
    }

    pub fn adc_absolute_y(&mut self)
        requires
            old(self).ready(4),
        ensures
            final(self).wf(),
            final(self)@ == Self::execute(old(self)@, Instruction::Adc, AddressingMode::AbsoluteY),
    {
        let address = self.fetch_absolute_y_read();
        let value = self.read(address);
        self.adc(value);
    }

    pub fn adc_indirect_x(&mut self)
        requires
            old(self).ready(5),
        ensures
            final(self).wf(),
            final(self)@ == Self::execute(
                old(self)@,
                Instruction::Adc,
                AddressingMode::IndirectZeroPageX,
            ),
    {
        let address = self.fetch_indirect_x();
        let value = self.read(address);
        self.adc(value);
    }

    pub fn adc_indirect_y(&mut self)
        requires
            old(self).ready(5),
        ensures
            final(self).wf(),
            final(self)@ == Self::execute(
                old(self)@,
                Instruction::Adc,
                AddressingMode::IndirectZeroPageY,
            ),
    {
        let address = self.fetch_indirect_y_read();
        let value = self.read(address);
        self.adc(value);
    }

    pub fn adc(&mut self, value: u8)
        ensures
            *final(self) == (Cpu {
                registers: apply(old(self).registers, Instruction::Adc, value),
                ..*old(self)
            }),
    {
        let carry_in = self.get_carry_flag();
        let accumulator = self.registers.a;
        let (result, carry_out) = add_bytes(accumulator, value, carry_in);
        self.set_overflow_flag_for_result(accumulator, value, result);
        self.set_carry_flag(carry_out);
        self.set_zero_result_flag_for_value(result);
        self.set_negative_result_flag_for_value(result);
        self.registers.a = result;
    }

    pub fn sbc_immediate(&mut self)
        requires
            old(self).ready(1),
        ensures
            final(self).wf(),
            final(self)@ == Self::execute(old(self)@, Instruction::Sbc, AddressingMode::Immediate),
    {
        let value = self.fetch_immediate();
        self.sbc(value);
    }

    pub fn sbc_zero_page(&mut self)
        requires
            old(self).ready(2),
        ensures
            final(self).wf(),
            final(self)@ == Self::execute(old(self)@, Instruction::Sbc, AddressingMode::ZeroPage),
    {
        let address = self.fetch_zero_page();
        let value = self.read(address);
        self.sbc(value);
    }

    pub fn sbc_zero_page_x(&mut self)
        requires
            old(self).ready(3),
        ensures
            final(self).wf(),
            final(self)@ == Self::execute(old(self)@, Instruction::Sbc, AddressingMode::ZeroPageX),
    {
        let address = self.fetch_zero_page_x();
        let value = self.read(address);
        self.sbc(value);
    }

    pub fn sbc_absolute(&mut self)
        requires
            old(self).ready(3),
        ensures
            final(self).wf(),
            final(self)@ == Self::execute(old(self)@, Instruction::Sbc, AddressingMode::Absolute),
    {
        let address = self.fetch_absolute();
        let value = self.read(address);
        self.sbc(value);
    }

    pub fn sbc_absolute_x(&mut self)
        requires
            old(self).ready(4),
        ensures
            final(self).wf(),
            final(self)@ == Self::execute(old(self)@, Instruction::Sbc, AddressingMode::AbsoluteX),
    {
        let address = self.fetch_absolute_x_read();
        let value = self.read(address);
        self.sbc(value);
    }

    pub fn sbc_absolute_y(&mut self)
        requires
            old(self).ready(4),
        ensures
            final(self).wf(),
            final(self)@ == Self::execute(old(self)@, Instruction::Sbc, AddressingMode::AbsoluteY),
    {
        let address = self.fetch_absolute_y_read();
        let value = self.read(address);
        self.sbc(value);
    }

    pub fn sbc_indirect_x(&mut self)
        requires
            old(self).ready(5),
        ensures
            final(self).wf(),
            final(self)@ == Self::execute(
                old(self)@,
                Instruction::Sbc,
                AddressingMode::IndirectZeroPageX,
            ),
    {
        let address = self.fetch_indirect_x();
        let value = self.read(address);
        self.sbc(value);
    }

    pub fn sbc_indirect_y(&mut self)
        requires
            old(self).ready(5),
        ensures
            final(self).wf(),
            final(self)@ == Self::execute(
                old(self)@,
                Instruction::Sbc,
                AddressingMode::IndirectZeroPageY,
            ),
    {
        let address = self.fetch_indirect_y_read();
        let value = self.read(address);
        self.sbc(value);
    }

    pub fn sbc(&mut self, value: u8)
        ensures
            *final(self) == (Cpu {
                registers: apply(old(self).registers, Instruction::Sbc, value),
                ..*old(self)
            }),
    {
        let carry_in = self.get_carry_flag();
        let accumulator = self.registers.a;
        let (result, carry_out) = subtract_bytes(accumulator, value, carry_in);
        self.set_overflow_flag_for_result(accumulator, 255 - value, result);
        self.set_carry_flag(carry_out);
        self.set_zero_result_flag_for_value(result);
        self.set_negative_result_flag_for_value(result);
        self.registers.a = result;
    }

    pub fn and_immediate(&mut self)
        requires
            old(self).ready(1),
        ensures
            final(self).wf(),
            final(self)@ == Self::execute(old(self)@, Instruction::And, AddressingMode::Immediate),
    {
        let value = self.fetch_immediate();
        self.and(value);
    }

    pub fn and_zero_page(&mut self)
        requires
            old(self).ready(2),
        ensures
            final(self).wf(),
            final(self)@ == Self::execute(old(self)@, Instruction::And, AddressingMode::ZeroPage),
    {
        let address = self.fetch_zero_page();
        let value = self.read(address);
        self.and(value);
    }

    pub fn and_zero_page_x(&mut self)
        requires
            old(self).ready(3),
        ensures
            final(self).wf(),
            final(self)@ == Self::execute(old(self)@, Instruction::And, AddressingMode::ZeroPageX),
    {
        let address = self.fetch_zero_page_x();
        let value = self.read(address);
        self.and(value);
    }

    pub fn and_absolute(&mut self)
        requires
            old(self).ready(3),
        ensures
            final(self).wf(),
            final(self)@ == Self::execute(old(self)@, Instruction::And, AddressingMode::Absolute),
    {
        let address = self.fetch_absolute();
        let value = self.read(address);
        self.and(value);
    }

    pub fn and_absolute_x(&mut self)
        requires
            old(self).ready(4),
        ensures
            final(self).wf(),
            final(self)@ == Self::execute(old(self)@, Instruction::And, AddressingMode::AbsoluteX),
    {
        let address = self.fetch_absolute_x_read();
        let value = self.read(address);
        self.and(value);
    }

    pub fn and_absolute_y(&mut self)
        requires
            old(self).ready(4),
        ensures
            final(self).wf(),
            final(self)@ == Self::execute(old(self)@, Instruction::And, AddressingMode::AbsoluteY),
    {
        let address = self.fetch_absolute_y_read();
        let value = self.read(address);
        self.and(value);
    }

    pub fn and_indirect_x(&mut self)
        requires
            old(self).ready(5),
        ensures
            final(self).wf(),
            final(self)@ == Self::execute(
                old(self)@,
                Instruction::And,
                AddressingMode::IndirectZeroPageX,
            ),
    {
        let address = self.fetch_indirect_x();
        let value = self.read(address);
        self.and(value);
    }

    pub fn and_indirect_y(&mut self)
        requires
            old(self).ready(5),
        ensures
            final(self).wf(),
            final(self)@ == Self::execute(
                old(self)@,
                Instruction::And,
                AddressingMode::IndirectZeroPageY,
            ),
    {
        let address = self.fetch_indirect_y_read();
        let value = self.read(address);
        self.and(value);
    }

    pub fn and(&mut self, value: u8)
        ensures
            *final(self) == (Cpu {
                registers: apply(old(self).registers, Instruction::And, value),
                ..*old(self)
            }),
    {
        let accumulator = self.registers.a;
        let result = accumulator & value;
        self.set_zero_result_flag_for_value(result);
        self.set_negative_result_flag_for_value(result);
        self.registers.a = result;
    }

    pub fn eor_immediate(&mut self)
        requires
            old(self).ready(1),
        ensures
            final(self).wf(),
            final(self)@ == Self::execute(old(self)@, Instruction::Eor, AddressingMode::Immediate),
    {
        let value = self.fetch_immediate();
        self.eor(value);
    }

    pub fn eor_zero_page(&mut self)
        requires
            old(self).ready(2),
        ensures
            final(self).wf(),
            final(self)@ == Self::execute(old(self)@, Instruction::Eor, AddressingMode::ZeroPage),
    {
        let address = self.fetch_zero_page();
        let value = self.read(address);
        self.eor(value);
    }

    pub fn eor_zero_page_x(&mut self)
        requires
            old(self).ready(3),
        ensures
            final(self).wf(),
            final(self)@ == Self::execute(old(self)@, Instruction::Eor, AddressingMode::ZeroPageX),
    {
        let address = self.fetch_zero_page_x();
        let value = self.read(address);
        self.eor(value);
    }

    pub fn eor_absolute(&mut self)
        requires
            old(self).ready(3),
        ensures
            final(self).wf(),
            final(self)@ == Self::execute(old(self)@, Instruction::Eor, AddressingMode::Absolute),
    {
        let address = self.fetch_absolute();
        let value = self.read(address);
        self.eor(value);
    }

    pub fn eor_absolute_x(&mut self)
        requires
            old(self).ready(4),
        ensures
            final(self).wf(),
            final(self)@ == Self::execute(old(self)@, Instruction::Eor, AddressingMode::AbsoluteX),
    {
        let address = self.fetch_absolute_x_read();
        let value = self.read(address);
        self.eor(value);
    }

    pub fn eor_absolute_y(&mut self)
        requires
            old(self).ready(4),
        ensures
            final(self).wf(),
            final(self)@ == Self::execute(old(self)@, Instruction::Eor, AddressingMode::AbsoluteY),
    {
        let address = self.fetch_absolute_y_read();
        let value = self.read(address);
        self.eor(value);
    }

    pub fn eor_indirect_x(&mut self)
        requires
            old(self).ready(5),
        ensures
            final(self).wf(),
            final(self)@ == Self::execute(
                old(self)@,
                Instruction::Eor,
                AddressingMode::IndirectZeroPageX,
            ),
    {
        let address = self.fetch_indirect_x();
        let value = self.read(address);
        self.eor(value);
    }

    pub fn eor_indirect_y(&mut self)
        requires
            old(self).ready(5),
        ensures
            final(self).wf(),
            final(self)@ == Self::execute(
                old(self)@,
                Instruction::Eor,
                AddressingMode::IndirectZeroPageY,
            ),
    {
        let address = self.fetch_indirect_y_read();
        let value = self.read(address);
        self.eor(value);
    }

    pub fn eor(&mut self, value: u8)
        ensures
            *final(self) == (Cpu {
                registers: apply(old(self).registers, Instruction::Eor, value),
                ..*old(self)
            }),
    {
        let accumulator = self.registers.a;
        let result = accumulator ^ value;
        self.set_zero_result_flag_for_value(result);
        self.set_negative_result_flag_for_value(result);
        self.registers.a = result;
    }

    pub fn ora_immediate(&mut self)
        requires
            old(self).ready(1),
        ensures
            final(self).wf(),
            final(self)@ == Self::execute(old(self)@, Instruction::Ora, AddressingMode::Immediate),
    {
        let value = self.fetch_immediate();
        self.ora(value);
    }

    pub fn ora_zero_page(&mut self)
        requires
            old(self).ready(2),
        ensures
            final(self).wf(),
            final(self)@ == Self::execute(old(self)@, Instruction::Ora, AddressingMode::ZeroPage),
    {
        let address = self.fetch_zero_page();
        let value = self.read(address);
        self.ora(value);
    }

    pub fn ora_zero_page_x(&mut self)
        requires
            old(self).ready(3),
        ensures
            final(self).wf(),
            final(self)@ == Self::execute(old(self)@, Instruction::Ora, AddressingMode::ZeroPageX),
    {
        let address = self.fetch_zero_page_x();
        let value = self.read(address);
        self.ora(value);
    }

    pub fn ora_absolute(&mut self)
        requires
            old(self).ready(3),
        ensures
            final(self).wf(),
            final(self)@ == Self::execute(old(self)@, Instruction::Ora, AddressingMode::Absolute),
    {
        let address = self.fetch_absolute();
        let value = self.read(address);
        self.ora(value);
    }

    pub fn ora_absolute_x(&mut self)
        requires
            old(self).ready(4),
        ensures
            final(self).wf(),
            final(self)@ == Self::execute(old(self)@, Instruction::Ora, AddressingMode::AbsoluteX),
    {
        let address = self.fetch_absolute_x_read();
        let value = self.read(address);
        self.ora(value);
    }

    pub fn ora_absolute_y(&mut self)
        requires
            old(self).ready(4),
        ensures
            final(self).wf(),
            final(self)@ == Self::execute(old(self)@, Instruction::Ora, AddressingMode::AbsoluteY),
    {
        let address = self.fetch_absolute_y_read();
        let value = self.read(address);
        self.ora(value);
    }

    pub fn ora_indirect_x(&mut self)
        requires
            old(self).ready(5),
        ensures
            final(self).wf(),
            final(self)@ == Self::execute(
                old(self)@,
                Instruction::Ora,
                AddressingMode::IndirectZeroPageX,
            ),
    {
        let address = self.fetch_indirect_x();
        let value = self.read(address);
        self.ora(value);
    }

    pub fn ora_indirect_y(&mut self)
        requires
            old(self).ready(5),
        ensures
            final(self).wf(),
            final(self)@ == Self::execute(
                old(self)@,
                Instruction::Ora,
                AddressingMode::IndirectZeroPageY,
            ),
    {
        let address = self.fetch_indirect_y_read();
        let value = self.read(address);
        self.ora(value);
    }

    pub fn ora(&mut self, value: u8)
        ensures
            *final(self) == (Cpu {
                registers: apply(old(self).registers, Instruction::Ora, value),
                ..*old(self)
            }),
    {
        let accumulator = self.registers.a;
        let result = accumulator | value;
        self.set_zero_result_flag_for_value(result);
        self.set_negative_result_flag_for_value(result);
        self.registers.a = result;
    }

    pub fn bit_zero_page(&mut self)
        requires
            old(self).ready(2),
        ensures
            final(self).wf(),
            final(self)@ == Self::execute(old(self)@, Instruction::Bit, AddressingMode::ZeroPage),
    {
        let address = self.fetch_zero_page();
        let value = self.read(address);
        self.bit(value);
    }

    pub fn bit_absolute(&mut self)
        requires
            old(self).ready(3),
        ensures
            final(self).wf(),
            final(self)@ == Self::execute(old(self)@, Instruction::Bit, AddressingMode::Absolute),
    {
        let address = self.fetch_absolute();
        let value = self.read(address);
        self.bit(value);
    }

    pub fn bit(&mut self, value: u8)
        ensures
            *final(self) == (Cpu {
                registers: apply(old(self).registers, Instruction::Bit, value),
                ..*old(self)
            }),
    {
        let accumulator = self.registers.a;
        let result = accumulator & value;
        let negative_out = value & 0x80 == 0x80;
        let overflow_out = value & 0x40 == 0x40;
        assert(negative_out == (value >= 0x80) && overflow_out == ((value / 64) % 2 == 1))
            by (bit_vector)
            requires
                negative_out == (value & 0x80 == 0x80),
                overflow_out == (value & 0x40 == 0x40),
        ;
        self.set_zero_result_flag_for_value(result);
        self.set_negative_result_flag(negative_out);
        self.set_overflow_flag(overflow_out);
    }

    pub fn cmp_immediate(&mut self)
        requires
            old(self).ready(1),
        ensures
            final(self).wf(),
            final(self)@ == Self::execute(old(self)@, Instruction::Cmp, AddressingMode::Immediate),
    {
        let value = self.fetch_immediate();
        let register = self.registers.a;
        self.cmp(register, value);
    }

    pub fn cmp_zero_page(&mut self)
        requires
            old(self).ready(2),
        ensures
            final(self).wf(),
            final(self)@ == Self::execute(old(self)@, Instruction::Cmp, AddressingMode::ZeroPage),
    {
        let address = self.fetch_zero_page();
        let value = self.read(address);
        let register = self.registers.a;
        self.cmp(register, value);
    }

    pub fn cmp_zero_page_x(&mut self)
        requires
            old(self).ready(3),
        ensures
            final(self).wf(),
            final(self)@ == Self::execute(old(self)@, Instruction::Cmp, AddressingMode::ZeroPageX),
    {
        let address = self.fetch_zero_page_x();
        let value = self.read(address);
        let register = self.registers.a;
        self.cmp(register, value);
    }

    pub fn cmp_absolute(&mut self)
        requires
            old(self).ready(3),
        ensures
            final(self).wf(),
            final(self)@ == Self::execute(old(self)@, Instruction::Cmp, AddressingMode::Absolute),
    {
        let address = self.fetch_absolute();
        let value = self.read(address);
        let register = self.registers.a;
        self.cmp(register, value);
    }

    pub fn cmp_absolute_x(&mut self)
        requires
            old(self).ready(4),
        ensures
            final(self).wf(),
            final(self)@ == Self::execute(old(self)@, Instruction::Cmp, AddressingMode::AbsoluteX),
    {
        let address = self.fetch_absolute_x_read();
        let value = self.read(address);
        let register = self.registers.a;
        self.cmp(register, value);
    }

    pub fn cmp_absolute_y(&mut self)
        requires
            old(self).ready(4),
        ensures
            final(self).wf(),
            final(self)@ == Self::execute(old(self)@, Instruction::Cmp, AddressingMode::AbsoluteY),
    {
        let address = self.fetch_absolute_y_read();
        let value = self.read(address);
        let register = self.registers.a;
        self.cmp(register, value);
    }

    pub fn cmp_indirect_x(&mut self)
        requires
            old(self).ready(5),
        ensures
            final(self).wf(),
            final(self)@ == Self::execute(
                old(self)@,
                Instruction::Cmp,
                AddressingMode::IndirectZeroPageX,
            ),
    {
        let address = self.fetch_indirect_x();
        let value = self.read(address);
        let register = self.registers.a;
        self.cmp(register, value);
    }

    pub fn cmp_indirect_y(&mut self)
        requires
            old(self).ready(5),
        ensures
            final(self).wf(),
            final(self)@ == Self::execute(
                old(self)@,
                Instruction::Cmp,
                AddressingMode::IndirectZeroPageY,
            ),
    {
        let address = self.fetch_indirect_y_read();
        let value = self.read(address);
        let register = self.registers.a;
        self.cmp(register, value);
    }

    pub fn cpx_immediate(&mut self)
        requires
            old(self).ready(1),
        ensures
            final(self).wf(),
            final(self)@ == Self::execute(old(self)@, Instruction::Cpx, AddressingMode::Immediate),
    {
        let value = self.fetch_immediate();
        let register = self.registers.x;
        self.cmp(register, value);
    }

    pub fn cpx_zero_page(&mut self)
        requires
            old(self).ready(2),
        ensures
            final(self).wf(),
            final(self)@ == Self::execute(old(self)@, Instruction::Cpx, AddressingMode::ZeroPage),
    {
        let address = self.fetch_zero_page();
        let value = self.read(address);
        let register = self.registers.x;
        self.cmp(register, value);
    }

    pub fn cpx_absolute(&mut self)
        requires
            old(self).ready(3),
        ensures
            final(self).wf(),
            final(self)@ == Self::execute(old(self)@, Instruction::Cpx, AddressingMode::Absolute),
    {
        let address = self.fetch_absolute();
        let value = self.read(address);
        let register = self.registers.x;
        self.cmp(register, value);
    }

    pub fn cpy_immediate(&mut self)
        requires
            old(self).ready(1),
        ensures
            final(self).wf(),
            final(self)@ == Self::execute(old(self)@, Instruction::Cpy, AddressingMode::Immediate),
    {
        let value = self.fetch_immediate();
        let register = self.registers.y;
        self.cmp(register, value);
    }

    pub fn cpy_zero_page(&mut self)
        requires
            old(self).ready(2),
        ensures
            final(self).wf(),
            final(self)@ == Self::execute(old(self)@, Instruction::Cpy, AddressingMode::ZeroPage),
    {
        let address = self.fetch_zero_page();
        let value = self.read(address);
        let register = self.registers.y;
        self.cmp(register, value);
    }

    pub fn cpy_absolute(&mut self)
        requires
            old(self).ready(3),
        ensures
            final(self).wf(),
            final(self)@ == Self::execute(old(self)@, Instruction::Cpy, AddressingMode::Absolute),
    {
        let address = self.fetch_absolute();
        let value = self.read(address);
        let register = self.registers.y;
        self.cmp(register, value);
    }

    /// Compares `register` with `value`; no register but the status changes.
    pub fn cmp(&mut self, register: u8, value: u8)
        ensures
            *final(self) == (Cpu {
                registers: Registers {
                    ps: compared(old(self).registers.ps, register, value),
                    ..old(self).registers
                },
                ..*old(self)
            }),
    {
        let carry_out = register >= value;
        let result: u8 = if carry_out {
            register - value
        } else {
            255 - (value - register) + 1
        };
        self.set_carry_flag(carry_out);
        self.set_zero_result_flag_for_value(result);
        self.set_negative_result_flag_for_value(result);
    }

    pub fn sta_zero_page(&mut self)
        requires
            old(self).ready(2),
        ensures
            final(self).wf(),
            final(self)@ == Self::execute(old(self)@, Instruction::Sta, AddressingMode::ZeroPage),
    {
        let address = self.fetch_zero_page();
        self.sta(address);
    }

    pub fn sta_zero_page_x(&mut self)
        requires
            old(self).ready(3),
        ensures
            final(self).wf(),
            final(self)@ == Self::execute(old(self)@, Instruction::Sta, AddressingMode::ZeroPageX),
    {
        let address = self.fetch_zero_page_x();
        self.sta(address);
    }

    pub fn sta_absolute(&mut self)
        requires
            old(self).ready(3),
        ensures
            final(self).wf(),
            final(self)@ == Self::execute(old(self)@, Instruction::Sta, AddressingMode::Absolute),
    {
        let address = self.fetch_absolute();
        self.sta(address);
    }

    pub fn sta_absolute_x(&mut self)
        requires
            old(self).ready(4),
        ensures
            final(self).wf(),
            final(self)@ == Self::execute(old(self)@, Instruction::Sta, AddressingMode::AbsoluteX),
    {
        let address = self.fetch_absolute_x_write();
        self.sta(address);
    }

    pub fn sta_absolute_y(&mut self)
        requires
            old(self).ready(4),
        ensures
            final(self).wf(),
            final(self)@ == Self::execute(old(self)@, Instruction::Sta, AddressingMode::AbsoluteY),
    {
        let address = self.fetch_absolute_y_write();
        self.sta(address);
    }

    pub fn sta_indirect_x(&mut self)
        requires
            old(self).ready(5),
        ensures
            final(self).wf(),
            final(self)@ == Self::execute(
                old(self)@,
                Instruction::Sta,
                AddressingMode::IndirectZeroPageX,
            ),
    {
        let address = self.fetch_indirect_x();
        self.sta(address);
    }

    pub fn sta_indirect_y(&mut self)
        requires
            old(self).ready(5),
        ensures
            final(self).wf(),
            final(self)@ == Self::execute(
                old(self)@,
                Instruction::Sta,
                AddressingMode::IndirectZeroPageY,
            ),
    {
        let address = self.fetch_indirect_y_write();
        self.sta(address);
    }

    pub fn sta(&mut self, address: u16)
        requires
            old(self).ready(1),
        ensures
            final(self).wf(),
            final(self)@ == Self::bus_write(old(self)@, address, old(self).registers.a),
    {
        self.write(address, self.registers.a);
    }

    pub fn stx_zero_page(&mut self)
        requires
            old(self).ready(2),
        ensures
            final(self).wf(),
            final(self)@ == Self::execute(old(self)@, Instruction::Stx, AddressingMode::ZeroPage),
    {
        let address = self.fetch_zero_page();
        self.stx(address);
    }

    pub fn stx_zero_page_y(&mut self)
        requires
            old(self).ready(3),
        ensures
            final(self).wf(),
            final(self)@ == Self::execute(old(self)@, Instruction::Stx, AddressingMode::ZeroPageY),
    {
        let address = self.fetch_zero_page_y();
        self.stx(address);
    }

    pub fn stx_absolute(&mut self)
        requires
            old(self).ready(3),
        ensures
            final(self).wf(),
            final(self)@ == Self::execute(old(self)@, Instruction::Stx, AddressingMode::Absolute),
    {
        let address = self.fetch_absolute();
        self.stx(address);
    }

    pub fn stx(&mut self, address: u16)
        requires
            old(self).ready(1),
        ensures
            final(self).wf(),
            final(self)@ == Self::bus_write(old(self)@, address, old(self).registers.x),
    {
        self.write(address, self.registers.x);
    }

    pub fn sty_zero_page(&mut self)
        requires
            old(self).ready(2),
        ensures
            final(self).wf(),
            final(self)@ == Self::execute(old(self)@, Instruction::Sty, AddressingMode::ZeroPage),
    {
        let address = self.fetch_zero_page();
        self.sty(address);
    }

    pub fn sty_zero_page_x(&mut self)
        requires
            old(self).ready(3),
        ensures
            final(self).wf(),
            final(self)@ == Self::execute(old(self)@, Instruction::Sty, AddressingMode::ZeroPageX),
    {
        let address = self.fetch_zero_page_x();
        self.sty(address);
    }

    pub fn sty_absolute(&mut self)
        requires
            old(self).ready(3),
        ensures
            final(self).wf(),
            final(self)@ == Self::execute(old(self)@, Instruction::Sty, AddressingMode::Absolute),
    {
        let address = self.fetch_absolute();
        self.sty(address);
    }

    pub fn sty(&mut self, address: u16)
        requires
            old(self).ready(1),
        ensures
            final(self).wf(),
            final(self)@ == Self::bus_write(old(self)@, address, old(self).registers.y),
    {
        self.write(address, self.registers.y);
    }
}

} // verus!
