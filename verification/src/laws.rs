use crate::addressing_mode::{mode_of, AddressingMode};
use crate::alu::{
    add_with_carry, apply, compared, high, implied_effect, is_branch, low, modifies, modify,
    pulled_status, returned_status, signed, subtract_with_borrow, takes_operand, word, wrap16,
    wrap8,
};
use crate::bus::Bus;
use crate::console::{CpuBus, CpuBusModel};
use crate::cpu::{Cpu, Registers, State};
use crate::debugger::{byte_or_zero, hex4, lemma_columns_fit, lemma_tables_agree, padded};
use crate::instructions::{instruction_of, Instruction};
use crate::status::Status;
use vstd::prelude::*;
use vstd::string::*;

verus! {

/// Whether the instruction sets the zero and negative flags from the byte
/// that it leaves in a register.
pub open spec fn sets_zn_from_register(instruction: Instruction) -> bool {
    matches!(
        instruction,
        Instruction::Lda | Instruction::Ldx | Instruction::Ldy | Instruction::Adc
            | Instruction::Sbc | Instruction::And | Instruction::Eor | Instruction::Ora
            | Instruction::Inx | Instruction::Iny | Instruction::Dex | Instruction::Dey
            | Instruction::Tax | Instruction::Tay | Instruction::Txa | Instruction::Tya
            | Instruction::Tsx
    )
}

/// Whether the instruction sets the program counter itself: branches, jumps,
/// calls, returns and BRK.
pub open spec fn changes_flow(instruction: Instruction) -> bool {
    is_branch(instruction) || matches!(
        instruction,
        Instruction::Jmp | Instruction::Jsr | Instruction::Rts | Instruction::Rti
            | Instruction::Brk
    )
}

/// Stepping a word twice is stepping it once by the sum, modulo 65536.
pub proof fn lemma_wrap16_adds(value: u16, first: int, second: int)
    requires
        0 <= first <= 3,
        0 <= second <= 3,
    ensures
        wrap16(wrap16(value + first) + second) == wrap16(value + first + second),
{
}

/// Whether the mode gives an instruction an address in memory.
pub open spec fn has_address(mode: AddressingMode) -> bool {
    matches!(
        mode,
        AddressingMode::Absolute | AddressingMode::AbsoluteX | AddressingMode::AbsoluteY
            | AddressingMode::ZeroPage | AddressingMode::ZeroPageX | AddressingMode::ZeroPageY
            | AddressingMode::IndirectZeroPageX | AddressingMode::IndirectZeroPageY
    )
}

/// Whether the instruction is one of the three stores.
pub open spec fn stores(instruction: Instruction) -> bool {
    matches!(instruction, Instruction::Sta | Instruction::Stx | Instruction::Sty)
}

/// Whether the mode is one that gives the instruction its operand: an
/// address for an instruction that reads, modifies or stores a byte, an
/// immediate byte for one that reads, the accumulator for one that modifies,
/// and nothing for the rest.
pub open spec fn fits(instruction: Instruction, mode: AddressingMode) -> bool {
    let reads = takes_operand(instruction);
    let changes = modifies(instruction);
    match mode {
        AddressingMode::Immediate => reads,
        AddressingMode::Accumulator => changes,
        AddressingMode::Implied => !reads && !changes && !stores(instruction),
        _ => has_address(mode) && (reads || changes || stores(instruction)),
    }
}

/// The two opcode tables fit together: a relative operand goes to a branch
/// and to nothing else, a pointer to a jump, and every other opcode has a
/// mode that gives its instruction an operand, unless the instruction is a
/// jump or a call.
pub proof fn lemma_opcode_pairs(opcode: u8)
    ensures
        mode_of(opcode) == AddressingMode::Relative <==> is_branch(instruction_of(opcode)),
        mode_of(opcode) == AddressingMode::IndirectAbsolute ==> instruction_of(opcode)
            == Instruction::Jmp,
        mode_of(opcode) != AddressingMode::Unimplemented && !changes_flow(instruction_of(opcode))
            ==> fits(instruction_of(opcode), mode_of(opcode)),
{
}

/// The register in which an instruction leaves its result.
pub open spec fn result_register(r: Registers, instruction: Instruction) -> u8 {
    match instruction {
        Instruction::Ldx | Instruction::Inx | Instruction::Dex | Instruction::Tax
        | Instruction::Tsx => r.x,
        Instruction::Ldy | Instruction::Iny | Instruction::Dey | Instruction::Tay => r.y,
        _ => r.a,
    }
}

/// The stack pointer lies in `0..=255` and the program counter in
/// `0..=65535`, whatever the registers hold.
pub proof fn lemma_register_ranges(r: Registers)
    ensures
        0 <= r.sp <= 255,
        0 <= r.pc <= 65535,
{
}

/// Flags taken from an 8-bit result: zero exactly when the result is 0,
/// negative exactly when its bit 7 is set.
pub proof fn lemma_zero_and_negative(ps: Status, result: u8)
    ensures
        ps.with_zn(result).zero_result <==> result == 0,
        ps.with_zn(result).negative_result <==> (result & 0x80) != 0,
{
    assert((result >= 0x80) <==> (result & 0x80) != 0) by (bit_vector);
}

/// Every instruction that leaves a byte in a register and sets the zero and
/// negative flags sets them from that byte.
pub proof fn lemma_flags_follow_result(r: Registers, instruction: Instruction, value: u8)
    requires
        sets_zn_from_register(instruction),
    ensures
        ({
            let after = if takes_operand(instruction) {
                apply(r, instruction, value)
            } else {
                implied_effect(r, instruction)
            };
            let result = result_register(after, instruction);
            &&& after.ps.zero_result <==> result == 0
            &&& after.ps.negative_result <==> (result & 0x80) != 0
        }),
{
    let after = if takes_operand(instruction) {
        apply(r, instruction, value)
    } else {
        implied_effect(r, instruction)
    };
    let result = result_register(after, instruction);
    assert((result >= 0x80) <==> (result & 0x80) != 0) by (bit_vector);
}

/// Every shift, rotate, increment and decrement sets the zero and negative
/// flags from the byte that it produces.
pub proof fn lemma_flags_follow_modified(ps: Status, instruction: Instruction, value: u8)
    requires
        modifies(instruction),
    ensures
        modify(ps, instruction, value).1.zero_result <==> modify(ps, instruction, value).0 == 0,
        modify(ps, instruction, value).1.negative_result <==> (modify(ps, instruction, value).0
            & 0x80) != 0,
{
    let result = modify(ps, instruction, value).0;
    assert((result >= 0x80) <==> (result & 0x80) != 0) by (bit_vector);
}

/// A comparison sets carry when the register is not below the value, zero
/// when they are equal, and negative from bit 7 of the 8-bit difference.
pub proof fn lemma_compare_flags(ps: Status, register: u8, value: u8)
    ensures
        compared(ps, register, value).carry <==> register >= value,
        compared(ps, register, value).zero_result <==> wrap8(register - value) == 0,
        compared(ps, register, value).negative_result <==> (wrap8(register - value) & 0x80) != 0,
{
    let difference = wrap8(register - value);
    assert((difference >= 0x80) <==> (difference & 0x80) != 0) by (bit_vector);
}

/// Adding the complement of a value with some carry gives the same result
/// and the same flags as subtracting the value with that carry.
pub proof fn lemma_adc_sbc_duality(r: Registers, value: u8)
    ensures
        add_with_carry(r.a, !value, r.ps.carry) == subtract_with_borrow(r.a, value, r.ps.carry),
        apply(r, Instruction::Adc, !value) == apply(r, Instruction::Sbc, value),
{
    assert(!value == 255 - value) by (bit_vector);
    let carry_in = if r.ps.carry { 1int } else { 0int };
    let sum = r.a + (255 - value) + carry_in;
    let difference = r.a - value - (1 - carry_in);
    assert(sum == difference + 256);
    if difference >= 0 {
        assert(sum % 256 == sum - 256);
        assert(difference % 256 == difference);
    } else {
        assert(sum % 256 == sum);
        assert(difference % 256 == difference + 256);
    }
    assert(wrap8(sum) == wrap8(difference));
}

/// Decimal mode changes nothing in addition and subtraction.
pub proof fn lemma_decimal_mode_is_ignored(r: Registers, instruction: Instruction, value: u8)
    requires
        instruction == Instruction::Adc || instruction == Instruction::Sbc,
    ensures
        ({
            let set = Registers { ps: Status { decimal_mode: true, ..r.ps }, ..r };
            let clear = Registers { ps: Status { decimal_mode: false, ..r.ps }, ..r };
            let after_set = apply(set, instruction, value);
            let after_clear = apply(clear, instruction, value);
            &&& after_set.a == after_clear.a
            &&& after_set.ps == (Status { decimal_mode: true, ..after_clear.ps })
        }),
{
}

/// The accumulator, the index registers and the status after an instruction
/// that consumes an operand, or that works on the registers alone, are a
/// function of those four registers, of the stack pointer where the
/// instruction is TSX, and of the operand.
pub proof fn lemma_registers_depend_on_inputs(
    r1: Registers,
    r2: Registers,
    instruction: Instruction,
    value: u8,
)
    requires
        r1.a == r2.a,
        r1.x == r2.x,
        r1.y == r2.y,
        r1.ps == r2.ps,
        instruction == Instruction::Tsx ==> r1.sp == r2.sp,
    ensures
        apply(r1, instruction, value).a == apply(r2, instruction, value).a,
        apply(r1, instruction, value).x == apply(r2, instruction, value).x,
        apply(r1, instruction, value).y == apply(r2, instruction, value).y,
        apply(r1, instruction, value).ps == apply(r2, instruction, value).ps,
        implied_effect(r1, instruction).a == implied_effect(r2, instruction).a,
        implied_effect(r1, instruction).x == implied_effect(r2, instruction).x,
        implied_effect(r1, instruction).y == implied_effect(r2, instruction).y,
        implied_effect(r1, instruction).ps == implied_effect(r2, instruction).ps,
{
}

impl<B: Bus> Cpu<B> {
    /// The state after pushing the bytes of `data` one after the other.
    pub open spec fn pushed_all(s: State<B::Model>, data: Seq<u8>) -> State<B::Model>
        decreases data.len(),
    {
        if data.len() == 0 {
            s
        } else {
            Self::pushed(Self::pushed_all(s, data.drop_last()), data.last())
        }
    }

    /// Finding an operand or an effective address moves the program counter
    /// and nothing else in the registers.
    pub proof fn lemma_addressing_keeps_registers(
        s: State<B::Model>,
        mode: AddressingMode,
        write: bool,
    )
        ensures
            Self::effective_address(s, mode, write).0.registers == (Registers {
                pc: Self::effective_address(s, mode, write).0.registers.pc,
                ..s.registers
            }),
            Self::operand(s, mode).0.registers == (Registers {
                pc: Self::operand(s, mode).0.registers.pc,
                ..s.registers
            }),
    {
    }

    /// After an instruction that consumes an operand, the accumulator, the
    /// index registers and the status are what `apply` makes of their values
    /// before the instruction and of the operand: they depend on nothing
    /// else.
    pub proof fn lemma_operand_instruction_registers(
        s: State<B::Model>,
        instruction: Instruction,
        mode: AddressingMode,
    )
        requires
            takes_operand(instruction),
        ensures
            ({
                let after = Self::execute(s, instruction, mode).registers;
                let expected = apply(s.registers, instruction, Self::operand(s, mode).1);
                &&& after.a == expected.a
                &&& after.x == expected.x
                &&& after.y == expected.y
                &&& after.ps == expected.ps
                &&& after.sp == s.registers.sp
            }),
    {
        Self::lemma_addressing_keeps_registers(s, mode, false);
    }

    /// Stores, jumps, calls, returns, branches and pushes leave the
    /// accumulator, the index registers and the status as they were.
    pub proof fn lemma_flow_keeps_registers(
        s: State<B::Model>,
        instruction: Instruction,
        mode: AddressingMode,
    )
        requires
            is_branch(instruction) || matches!(
                instruction,
                Instruction::Sta | Instruction::Stx | Instruction::Sty | Instruction::Jmp
                    | Instruction::Jsr | Instruction::Rts | Instruction::Pha | Instruction::Php
            ),
        ensures
            Self::execute(s, instruction, mode).registers.a == s.registers.a,
            Self::execute(s, instruction, mode).registers.x == s.registers.x,
            Self::execute(s, instruction, mode).registers.y == s.registers.y,
            Self::execute(s, instruction, mode).registers.ps == s.registers.ps,
    {
        Self::lemma_addressing_keeps_registers(s, mode, true);
    }

    /// The instructions that load registers from the stack: PLA takes the
    /// accumulator and the zero and negative flags from the byte that it
    /// pulls, PLP and RTI take the status from it, and BRK changes nothing
    /// but the interrupt-disable flag. The index registers stay.
    pub proof fn lemma_stack_loads(s: State<B::Model>)
        ensures
            ({
                let pulled = Self::pulled(Self::bus_read(s, Self::stack_top(s)).0).1;
                let after = Self::execute(s, Instruction::Pla, AddressingMode::Implied).registers;
                &&& after.a == pulled
                &&& after.ps == s.registers.ps.with_zn(pulled)
                &&& after.x == s.registers.x
                &&& after.y == s.registers.y
            }),
            ({
                let pulled = Self::pulled(Self::bus_read(s, Self::stack_top(s)).0).1;
                let after = Self::execute(s, Instruction::Plp, AddressingMode::Implied).registers;
                &&& after.ps == pulled_status(pulled)
                &&& after.ps.unused
                &&& after.a == s.registers.a
                &&& after.x == s.registers.x
                &&& after.y == s.registers.y
            }),
            ({
                let s2 = Self::bus_read(Self::dummy_read(s), Self::stack_top(s)).0;
                let pulled = Self::pulled(s2).1;
                let after = Self::execute(s, Instruction::Rti, AddressingMode::Implied).registers;
                &&& after.ps == returned_status(s.registers.ps, pulled)
                &&& after.ps.unused
                &&& after.ps.break_command == s.registers.ps.break_command
                &&& after.a == s.registers.a
                &&& after.x == s.registers.x
                &&& after.y == s.registers.y
            }),
            ({
                let after = Self::execute(s, Instruction::Brk, AddressingMode::Implied).registers;
                &&& after.ps == (Status { interrupt_disable: true, ..s.registers.ps })
                &&& after.a == s.registers.a
                &&& after.x == s.registers.x
                &&& after.y == s.registers.y
            }),
    {
    }

    /// A comparison leaves the accumulator and the index registers as they
    /// were.
    pub proof fn lemma_compare_keeps_registers(
        s: State<B::Model>,
        instruction: Instruction,
        mode: AddressingMode,
    )
        requires
            instruction == Instruction::Cmp || instruction == Instruction::Cpx || instruction
                == Instruction::Cpy,
        ensures
            Self::execute(s, instruction, mode).registers.a == s.registers.a,
            Self::execute(s, instruction, mode).registers.x == s.registers.x,
            Self::execute(s, instruction, mode).registers.y == s.registers.y,
            Self::execute(s, instruction, mode).registers.sp == s.registers.sp,
    {
        Self::lemma_addressing_keeps_registers(s, mode, false);
    }

    /// Each push moves the stack pointer down by one, modulo 256: after 256
    /// pushes it is back where it started, and after 257 it is one below.
    pub proof fn lemma_stack_wraps(s: State<B::Model>, data: Seq<u8>)
        ensures
            Self::pushed_all(s, data).registers.sp == wrap8(s.registers.sp - data.len()),
            data.len() == 256 ==> Self::pushed_all(s, data).registers.sp == s.registers.sp,
            data.len() == 257 ==> Self::pushed_all(s, data).registers.sp == wrap8(
                s.registers.sp - 1,
            ),
            Self::pushed_all(s, data).cycle == s.cycle + data.len(),
        decreases data.len(),
    {
        if data.len() > 0 {
            Self::lemma_stack_wraps(s, data.drop_last());
        }
    }

    /// A pull undoes a push: it returns the stack pointer to where it was,
    /// whatever it was.
    pub proof fn lemma_pull_restores_stack_pointer(s: State<B::Model>, data: u8)
        ensures
            Self::pulled(Self::pushed(s, data)).0.registers.sp == s.registers.sp,
    {
    }

    /// A read-modify-write instruction on memory reads its target once,
    /// writes the byte back as it was read, and then writes the result, in
    /// that order and in three cycles.
    pub proof fn lemma_read_modify_write_accesses(
        s: State<B::Model>,
        instruction: Instruction,
        mode: AddressingMode,
    )
        requires
            modifies(instruction),
            mode != AddressingMode::Accumulator,
        ensures
            ({
                let (s1, address) = Self::effective_address(s, mode, true);
                let value = B::read_value(s1.bus, address);
                let result = modify(s.registers.ps, instruction, value).0;
                let after = Self::execute(s, instruction, mode);
                &&& after.bus == B::after_write(
                    B::after_write(B::after_read(s1.bus, address), address, value),
                    address,
                    result,
                )
                &&& after.cycle == s1.cycle + 3
            }),
    {
        Self::lemma_addressing_keeps_registers(s, mode, true);
    }

    /// Where the low byte of the pointer of an indirect jump is `$FF`, the
    /// high byte of the target comes from the start of the pointer's own
    /// page, not from the next page.
    pub proof fn lemma_indirect_jump_wraps(s: State<B::Model>)
        ensures
            ({
                let (s1, ial) = Self::next_byte(s);
                let (s2, iah) = Self::next_byte(s1);
                let (s3, adl) = Self::bus_read(s2, word(iah, ial));
                let after = Self::execute(s, Instruction::Jmp, AddressingMode::IndirectAbsolute);
                &&& low(after.registers.pc) == adl
                &&& ial == 0xff ==> high(after.registers.pc) == B::read_value(
                    s3.bus,
                    word(iah, 0x00),
                )
                &&& ial != 0xff ==> high(after.registers.pc) == B::read_value(
                    s3.bus,
                    word(iah, (ial + 1) as u8),
                )
                &&& after.cycle == s.cycle + 4
            }),
    {
    }

    /// A branch that is not taken costs the fetch of its offset alone. A
    /// branch that is taken costs one more read where its destination lies
    /// in the page of the next instruction, and two more where it does not;
    /// either way it arrives at the destination.
    pub proof fn lemma_branch_page_penalty(s: State<B::Model>, condition: bool)
        ensures
            ({
                let (s1, offset) = Self::next_byte(s);
                let target = wrap16(s1.registers.pc + signed(offset));
                let after = Self::branched(s, condition);
                &&& !condition ==> after.cycle == s.cycle + 1 && after.registers.pc
                    == s1.registers.pc
                &&& condition ==> after.registers.pc == target
                &&& condition && high(target) == high(s1.registers.pc) ==> after.cycle == s.cycle
                    + 2
                &&& condition && high(target) != high(s1.registers.pc) ==> after.cycle == s.cycle
                    + 3
            }),
    {
    }

    /// A second reset leaves the registers and the cycle count as the first
    /// did, provided that the reset vector reads the same both times.
    pub proof fn lemma_reset_is_idempotent(s: State<B::Model>)
        requires
            ({
                let once = Self::after_reset(s);
                &&& B::read_value(once.bus, 0xfffc) == B::read_value(s.bus, 0xfffc)
                &&& B::read_value(B::after_read(once.bus, 0xfffc), 0xfffd) == B::read_value(
                    B::after_read(s.bus, 0xfffc),
                    0xfffd,
                )
            }),
        ensures
            Self::after_reset(Self::after_reset(s)).registers == Self::after_reset(s).registers,
            Self::after_reset(Self::after_reset(s)).cycle == Self::after_reset(s).cycle,
    {
    }

    /// An instruction costs at least one cycle after the fetch of its
    /// opcode.
    pub proof fn lemma_execute_cycles(
        s: State<B::Model>,
        instruction: Instruction,
        mode: AddressingMode,
    )
        requires
            instruction != Instruction::Unimplemented,
        ensures
            Self::execute(s, instruction, mode).cycle >= s.cycle + 1,
    {
    }

    /// The bus accesses that finding an effective address takes: none to
    /// four, by the mode.
    pub proof fn lemma_addressing_cycles(s: State<B::Model>, mode: AddressingMode, write: bool)
        ensures
            ({
                let after = Self::effective_address(s, mode, write).0.cycle;
                match mode {
                    AddressingMode::ZeroPage => after == s.cycle + 1,
                    AddressingMode::ZeroPageX
                    | AddressingMode::ZeroPageY
                    | AddressingMode::Absolute => after == s.cycle + 2,
                    AddressingMode::AbsoluteX | AddressingMode::AbsoluteY => if write {
                        after == s.cycle + 3
                    } else {
                        s.cycle + 2 <= after <= s.cycle + 3
                    },
                    AddressingMode::IndirectZeroPageX => after == s.cycle + 4,
                    AddressingMode::IndirectZeroPageY => if write {
                        after == s.cycle + 4
                    } else {
                        s.cycle + 3 <= after <= s.cycle + 4
                    },
                    _ => after == s.cycle,
                }
            }),
    {
    }

    /// No documented opcode takes more than seven cycles, its fetch
    /// included.
    pub proof fn lemma_step_cycles_bounded(s: State<B::Model>)
        requires
            mode_of(Self::next_opcode(s)) != AddressingMode::Unimplemented,
        ensures
            Self::stepped(s).cycle <= s.cycle + 7,
    {
        let (s1, opcode) = Self::next_byte(s);
        lemma_tables_agree(opcode);
        Self::lemma_addressing_cycles(s1, mode_of(opcode), true);
        Self::lemma_addressing_cycles(s1, mode_of(opcode), false);
    }

    /// Finding an effective address moves the program counter over the
    /// operand bytes of the mode, modulo 65536.
    pub proof fn lemma_addressing_advances(s: State<B::Model>, mode: AddressingMode, write: bool)
        requires
            has_address(mode),
        ensures
            Self::effective_address(s, mode, write).0.registers.pc == wrap16(
                s.registers.pc + mode.size() - 1,
            ),
    {
        let pc = s.registers.pc;
        assert(wrap16(wrap16(pc + 1) + 1) == wrap16(pc + 2));
    }

    proof fn lemma_operand_advances(
        s: State<B::Model>,
        instruction: Instruction,
        mode: AddressingMode,
    )
        requires
            takes_operand(instruction),
            fits(instruction, mode),
        ensures
            Self::execute(s, instruction, mode).registers.pc == wrap16(
                s.registers.pc + mode.size() - 1,
            ),
    {
        if has_address(mode) {
            Self::lemma_addressing_advances(s, mode, false);
        }
    }

    proof fn lemma_modify_advances(
        s: State<B::Model>,
        instruction: Instruction,
        mode: AddressingMode,
    )
        requires
            modifies(instruction),
            fits(instruction, mode),
        ensures
            Self::execute(s, instruction, mode).registers.pc == wrap16(
                s.registers.pc + mode.size() - 1,
            ),
    {
        if has_address(mode) {
            Self::lemma_addressing_advances(s, mode, true);
        }
    }

    proof fn lemma_store_advances(
        s: State<B::Model>,
        instruction: Instruction,
        mode: AddressingMode,
    )
        requires
            stores(instruction),
            fits(instruction, mode),
        ensures
            Self::execute(s, instruction, mode).registers.pc == wrap16(
                s.registers.pc + mode.size() - 1,
            ),
    {
        Self::lemma_addressing_advances(s, mode, true);
    }

    proof fn lemma_implied_advances(
        s: State<B::Model>,
        instruction: Instruction,
        mode: AddressingMode,
    )
        requires
            instruction != Instruction::Unimplemented,
            !changes_flow(instruction),
            !takes_operand(instruction),
            !modifies(instruction),
            !stores(instruction),
            fits(instruction, mode),
        ensures
            Self::execute(s, instruction, mode).registers.pc == s.registers.pc,
    {
    }

    /// An instruction that does not change the flow of control, in a mode
    /// that fits it, moves the program counter over its operand bytes.
    pub proof fn lemma_execute_advances(
        s: State<B::Model>,
        instruction: Instruction,
        mode: AddressingMode,
    )
        requires
            instruction != Instruction::Unimplemented,
            !changes_flow(instruction),
            fits(instruction, mode),
        ensures
            Self::execute(s, instruction, mode).registers.pc == wrap16(
                s.registers.pc + mode.size() - 1,
            ),
    {
        if takes_operand(instruction) {
            Self::lemma_operand_advances(s, instruction, mode);
        } else if modifies(instruction) {
            Self::lemma_modify_advances(s, instruction, mode);
        } else if stores(instruction) {
            Self::lemma_store_advances(s, instruction, mode);
        } else {
            Self::lemma_implied_advances(s, instruction, mode);
        }
    }

    /// An instruction that does not change the flow of control leaves the
    /// program counter behind its own last byte: it moves on, modulo 65536,
    /// by the length that the instruction's addressing mode has.
    pub proof fn lemma_program_counter_advances(s: State<B::Model>)
        requires
            mode_of(Self::next_opcode(s)) != AddressingMode::Unimplemented,
            !changes_flow(instruction_of(Self::next_opcode(s))),
        ensures
            Self::stepped(s).registers.pc == wrap16(
                s.registers.pc + mode_of(Self::next_opcode(s)).size(),
            ),
    {
        let (s1, opcode) = Self::next_byte(s);
        let instruction = instruction_of(opcode);
        let mode = mode_of(opcode);
        lemma_tables_agree(opcode);
        lemma_opcode_pairs(opcode);
        Self::lemma_execute_advances(s1, instruction, mode);
        lemma_wrap16_adds(s.registers.pc, 1, mode.size() - 1);
    }

    /// In the trace line of every documented opcode the registers start in
    /// the same column: the program counter, the instruction's bytes and its
    /// disassembly take 33 characters with the spaces between them.
    pub proof fn lemma_trace_is_aligned(s: State<B::Model>)
        requires
            mode_of(Self::next_opcode(s)) != AddressingMode::Unimplemented,
        ensures
            padded(Self::decoded_text(s).0, 8).len() == 8,
            padded(Self::decoded_text(s).1, 11).len() == 11,
            (hex4(s.registers.pc) + "  "@ + padded(Self::decoded_text(s).0, 8) + "   "@ + padded(
                Self::decoded_text(s).1,
                11,
            ) + "     "@).len() == 33,
    {
        reveal_strlit("  ");
        reveal_strlit("   ");
        reveal_strlit("     ");
        let opcode = Self::next_opcode(s);
        let bytes = Self::decoded_bytes(s);
        let low_byte = byte_or_zero(bytes, 1);
        let high_byte = byte_or_zero(bytes, 2);
        lemma_columns_fit(opcode, low_byte, high_byte);
        assert(seq![opcode, low_byte, high_byte].take(mode_of(opcode).size() as int) =~= bytes);
    }

    /// The hardwired status bit stays set through every instruction.
    pub proof fn lemma_execute_keeps_unused(
        s: State<B::Model>,
        instruction: Instruction,
        mode: AddressingMode,
    )
        requires
            s.registers.ps.unused,
        ensures
            Self::execute(s, instruction, mode).registers.ps.unused,
    {
        Self::lemma_addressing_keeps_registers(s, mode, false);
        Self::lemma_addressing_keeps_registers(s, mode, true);
    }

    /// Every step of a documented opcode counts at least two cycles, the
    /// fetch of the opcode and one more access, and keeps the hardwired
    /// status bit set.
    pub proof fn lemma_step_invariants(s: State<B::Model>)
        requires
            s.registers.ps.unused,
            mode_of(Self::next_opcode(s)) != AddressingMode::Unimplemented,
        ensures
            Self::stepped(s).cycle >= s.cycle + 2,
            Self::stepped(s).registers.ps.unused,
    {
        let (s1, opcode) = Self::next_byte(s);
        lemma_tables_agree(opcode);
        Self::lemma_execute_cycles(s1, instruction_of(opcode), mode_of(opcode));
        Self::lemma_execute_keeps_unused(s1, instruction_of(opcode), mode_of(opcode));
    }
}

/// On the console's bus a read changes nothing, so a second reset leaves
/// the whole state as the first did.
pub proof fn lemma_console_reset_is_idempotent(s: State<CpuBusModel>)
    ensures
        Cpu::<CpuBus>::after_reset(Cpu::<CpuBus>::after_reset(s)) == Cpu::<CpuBus>::after_reset(s),
{
}

} // verus!
