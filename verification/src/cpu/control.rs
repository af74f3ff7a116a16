use crate::addressing_mode::AddressingMode;
use crate::alu::{
    add16, add8, high, high_byte, low, low_byte, make_word, pulled_status, returned_status,
    signed, word, wrap16, wrap8,
};
use crate::bus::Bus;
use crate::cpu::{Cpu, Registers, State, BREAK_VECTOR};
use crate::instructions::Instruction;
use crate::status::Status;
use vstd::prelude::*;

verus! {

impl<B: Bus> Cpu<B> {
    /// PLA: the stack slot under SP is read once, then the accumulator is
    /// pulled and sets the zero and negative flags.
    pub open spec fn pulled_accumulator(s: State<B::Model>) -> State<B::Model> {
        let s1 = Self::bus_read(s, Self::stack_top(s)).0;
        let (s2, value) = Self::pulled(s1);
        State {
            registers: Registers { a: value, ps: s2.registers.ps.with_zn(value), ..s2.registers },
            ..s2
        }
    }

    /// PLP: the stack slot under SP is read once, then the status is pulled.
    pub open spec fn pulled_flags(s: State<B::Model>) -> State<B::Model> {
        let s1 = Self::bus_read(s, Self::stack_top(s)).0;
        let (s2, value) = Self::pulled(s1);
        State { registers: Registers { ps: pulled_status(value), ..s2.registers }, ..s2 }
    }

    /// A conditional branch. The offset is always fetched. A branch that is
    /// taken reads once at the destination's low byte in the page of the
    /// program counter; where the destination lies in another page it reads
    /// the destination as well.
    pub open spec fn branched(s: State<B::Model>, condition: bool) -> State<B::Model> {
        let (s1, offset) = Self::next_byte(s);
        if !condition {
            s1
        } else {
            let pc = s1.registers.pc;
            let target = wrap16(pc + signed(offset));
            let same_page = word(high(pc), low(target));
            let s2 = Self::bus_read(s1, same_page).0;
            let s3 = if target == same_page {
                s2
            } else {
                Self::bus_read(s2, target).0
            };
            State { registers: Registers { pc: target, ..s3.registers }, ..s3 }
        }
    }

    /// BRK: the padding byte is fetched, the program counter and the status
    /// with the break flag are pushed, interrupts are disabled, and the
    /// program counter comes from the vector at `$FFFE`.
    pub open spec fn interrupted(s: State<B::Model>) -> State<B::Model> {
        let s1 = Self::next_byte(s).0;
        let s2 = Self::pushed(s1, high(s1.registers.pc));
        let s3 = Self::pushed(s2, low(s1.registers.pc));
        let s4 = Self::pushed(s3, s1.registers.ps.pushed().packed());
        let s5 = State {
            registers: Registers {
                ps: Status { interrupt_disable: true, ..s4.registers.ps },
                ..s4.registers
            },
            ..s4
        };
        let (s6, adl) = Self::bus_read(s5, BREAK_VECTOR);
        let (s7, adh) = Self::bus_read(s6, 0xffff);
        State { registers: Registers { pc: word(adh, adl), ..s7.registers }, ..s7 }
    }

    /// JSR: the low target byte is fetched, the stack top is read once, the
    /// address of the instruction's last byte is pushed high byte first, and
    /// the high target byte is fetched.
    pub open spec fn called(s: State<B::Model>) -> State<B::Model> {
        let (s1, adl) = Self::next_byte(s);
        let s2 = Self::bus_read(s1, Self::stack_top(s1)).0;
        let s3 = Self::pushed(s2, high(s1.registers.pc));
        let s4 = Self::pushed(s3, low(s1.registers.pc));
        let (s5, adh) = Self::next_byte(s4);
        State { registers: Registers { pc: word(adh, adl), ..s5.registers }, ..s5 }
    }

    /// RTS: one read at the program counter, one at the stack top, the return
    /// address is pulled low byte first and read once, and execution goes on
    /// at the byte after it in the same page.
    pub open spec fn returned(s: State<B::Model>) -> State<B::Model> {
        let s1 = Self::dummy_read(s);
        let s2 = Self::bus_read(s1, Self::stack_top(s1)).0;
        let (s3, pcl) = Self::pulled(s2);
        let (s4, pch) = Self::pulled(s3);
        let s5 = Self::bus_read(s4, word(pch, pcl)).0;
        State { registers: Registers { pc: word(pch, wrap8(pcl + 1)), ..s5.registers }, ..s5 }
    }

    /// RTI: one read at the program counter, one at the stack top, then the
    /// status and the program counter are pulled; the break flag stays as it
    /// was.
    pub open spec fn returned_from_interrupt(s: State<B::Model>) -> State<B::Model> {
        let s1 = Self::dummy_read(s);
        let s2 = Self::bus_read(s1, Self::stack_top(s1)).0;
        let (s3, p) = Self::pulled(s2);
        let (s4, pcl) = Self::pulled(s3);
        let (s5, pch) = Self::pulled(s4);
        State {
            registers: Registers {
                ps: returned_status(s.registers.ps, p),
                pc: word(pch, pcl),
                ..s5.registers
            },
            ..s5
        }
    }

    /// JMP to the address that follows the opcode.
    pub open spec fn jumped(s: State<B::Model>) -> State<B::Model> {
        let (s1, address) = Self::absolute(s);
        State { registers: Registers { pc: address, ..s1.registers }, ..s1 }
    }

    /// JMP through a pointer. The high byte of the target is read from the
    /// page of the pointer: the pointer's low byte wraps without a carry.
    pub open spec fn jumped_indirect(s: State<B::Model>) -> State<B::Model> {
        let (s1, ial) = Self::next_byte(s);
        let (s2, iah) = Self::next_byte(s1);
        let (s3, adl) = Self::bus_read(s2, word(iah, ial));
        let (s4, adh) = Self::bus_read(s3, word(iah, wrap8(ial + 1)));
        State { registers: Registers { pc: word(adh, adl), ..s4.registers }, ..s4 }
    }

    pub fn pha_implied(&mut self)
        requires
            old(self).ready(2),
        ensures
            final(self).wf(),
            final(self)@ == Self::execute(old(self)@, Instruction::Pha, AddressingMode::Implied),
    {
        self.fetch_implied();
        self.push(self.registers.a);
    }

    pub fn php_implied(&mut self)
        requires
            old(self).ready(2),
        ensures
            final(self).wf(),
            final(self)@ == Self::execute(old(self)@, Instruction::Php, AddressingMode::Implied),
    {
        self.fetch_implied();
        let mut pushed = self.registers.ps;
        pushed.break_command = true;
        pushed.unused = true;
        self.push(pushed.bits());
    }

    pub fn pla_implied(&mut self)
        requires
            old(self).ready(2),
        ensures
            final(self).wf(),
            final(self)@ == Self::execute(old(self)@, Instruction::Pla, AddressingMode::Implied),
    {
        self.read(self.stack_address());
        let value = self.pull();
        self.set_zero_result_flag_for_value(value);
        self.set_negative_result_flag_for_value(value);
        self.registers.a = value;
    }

    pub fn plp_implied(&mut self)
        requires
            old(self).ready(2),
        ensures
            final(self).wf(),
            final(self)@ == Self::execute(old(self)@, Instruction::Plp, AddressingMode::Implied),
    {
        self.read(self.stack_address());
        let value = self.pull();
        let mut pulled = Status::from_bits_truncate(value);
        pulled.unused = true;
        self.registers.ps = pulled;
    }

    pub fn bcc_relative(&mut self)
        requires
            old(self).ready(3),
        ensures
            final(self).wf(),
            final(self)@ == Self::execute(old(self)@, Instruction::Bcc, AddressingMode::Relative),
    {
        let condition = !self.get_carry_flag();
        self.branch(condition);
    }

    pub fn bcs_relative(&mut self)
        requires
            old(self).ready(3),
        ensures
            final(self).wf(),
            final(self)@ == Self::execute(old(self)@, Instruction::Bcs, AddressingMode::Relative),
    {
        let condition = self.get_carry_flag();
        self.branch(condition);
    }

    pub fn bne_relative(&mut self)
        requires
            old(self).ready(3),
        ensures
            final(self).wf(),
            final(self)@ == Self::execute(old(self)@, Instruction::Bne, AddressingMode::Relative),
    {
        let condition = !self.get_zero_result_flag();
        self.branch(condition);
    }

    pub fn beq_relative(&mut self)
        requires
            old(self).ready(3),
        ensures
            final(self).wf(),
            final(self)@ == Self::execute(old(self)@, Instruction::Beq, AddressingMode::Relative),
    {
        let condition = self.get_zero_result_flag();
        self.branch(condition);
    }

    pub fn bpl_relative(&mut self)
        requires
            old(self).ready(3),
        ensures
            final(self).wf(),
            final(self)@ == Self::execute(old(self)@, Instruction::Bpl, AddressingMode::Relative),
    {
        let condition = !self.get_negative_result_flag();
        self.branch(condition);
    }

    pub fn bmi_relative(&mut self)
        requires
            old(self).ready(3),
        ensures
            final(self).wf(),
            final(self)@ == Self::execute(old(self)@, Instruction::Bmi, AddressingMode::Relative),
    {
        let condition = self.get_negative_result_flag();
        self.branch(condition);
    }

    pub fn bvc_relative(&mut self)
        requires
            old(self).ready(3),
        ensures
            final(self).wf(),
            final(self)@ == Self::execute(old(self)@, Instruction::Bvc, AddressingMode::Relative),
    {
        let condition = !self.get_overflow_flag();
        self.branch(condition);
    }

    pub fn bvs_relative(&mut self)
        requires
            old(self).ready(3),
        ensures
            final(self).wf(),
            final(self)@ == Self::execute(old(self)@, Instruction::Bvs, AddressingMode::Relative),
    {
        let condition = self.get_overflow_flag();
        self.branch(condition);
    }

    pub fn branch(&mut self, condition: bool)
        requires
            old(self).ready(3),
        ensures
            final(self).wf(),
            final(self)@ == Self::branched(old(self)@, condition),
    {
        let offset = self.fetch();
        if !condition {
            return ;
        }
        let pc = self.registers.pc;
        let pch = high_byte(pc);
        let target = if offset < 0x80 {
            add16(pc, offset as u16)
        } else {
            add16(pc, 0xff00 + offset as u16)
        };
        let same_page_address = make_word(pch, low_byte(target));
        self.read(same_page_address);
        if target != same_page_address {
            self.read(target);
        }
        self.registers.pc = target;
    }

    pub fn brk_implied(&mut self)
        requires
            old(self).ready(6),
        ensures
            final(self).wf(),
            final(self)@ == Self::execute(old(self)@, Instruction::Brk, AddressingMode::Implied),
    {
        self.fetch();
        let pch = high_byte(self.registers.pc);
        let pcl = low_byte(self.registers.pc);
        let mut pushed = self.registers.ps;
        pushed.break_command = true;
        pushed.unused = true;
        let p = pushed.bits();
        self.push(pch);
        self.push(pcl);
        self.push(p);
        self.set_interrupt_disable_flag(true);
        let adl = self.read(BREAK_VECTOR);
        let adh = self.read(0xffff);
        self.registers.pc = make_word(adh, adl);
    }

    pub fn jsr_absolute(&mut self)
        requires
            old(self).ready(5),
        ensures
            final(self).wf(),
            final(self)@ == Self::execute(old(self)@, Instruction::Jsr, AddressingMode::Absolute),
    {
        let adl = self.fetch();
        self.read(self.stack_address());
        let pch = high_byte(self.registers.pc);
        let pcl = low_byte(self.registers.pc);
        self.push(pch);
        self.push(pcl);
        let adh = self.fetch();
        self.registers.pc = make_word(adh, adl);
    }

    pub fn rts_implied(&mut self)
        requires
            old(self).ready(5),
        ensures
            final(self).wf(),
            final(self)@ == Self::execute(old(self)@, Instruction::Rts, AddressingMode::Implied),
    {
        self.fetch_implied();
        self.read(self.stack_address());
        let pcl = self.pull();
        let pch = self.pull();
        self.read(make_word(pch, pcl));
        let pcl_1 = add8(pcl, 1);
        self.registers.pc = make_word(pch, pcl_1);
    }

    pub fn rti_implied(&mut self)
        requires
            old(self).ready(5),
        ensures
            final(self).wf(),
            final(self)@ == Self::execute(old(self)@, Instruction::Rti, AddressingMode::Implied),
    {
        let break_command = self.registers.ps.break_command;
        self.fetch_implied();
        self.read(self.stack_address());
        let p = self.pull();
        let pcl = self.pull();
        let pch = self.pull();
        let mut pulled = Status::from_bits_truncate(p);
        pulled.unused = true;
        pulled.break_command = break_command;
        self.registers.ps = pulled;
        self.registers.pc = make_word(pch, pcl);
    }

    pub fn jmp_absolute(&mut self)
        requires
            old(self).ready(2),
        ensures
            final(self).wf(),
            final(self)@ == Self::execute(old(self)@, Instruction::Jmp, AddressingMode::Absolute),
    {
        let adl = self.fetch();
        let adh = self.fetch();
        self.registers.pc = make_word(adh, adl);
    }

    pub fn jmp_indirect(&mut self)
        requires
            old(self).ready(4),
        ensures
            final(self).wf(),
            final(self)@ == Self::execute(
                old(self)@,
                Instruction::Jmp,
                AddressingMode::IndirectAbsolute,
            ),
    {
        let ial = self.fetch();
        let iah = self.fetch();
        let adl = self.read(make_word(iah, ial));
        let ial_1 = add8(ial, 1);
        let adh = self.read(make_word(iah, ial_1));
        self.registers.pc = make_word(adh, adl);
    }
}

} // verus!
