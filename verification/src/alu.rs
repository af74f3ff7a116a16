use crate::cpu::Registers;
use crate::instructions::Instruction;
use crate::status::Status;
use vstd::prelude::*;

verus! {

/// The 16-bit word with the given high and low byte.
pub open spec fn word(high: u8, low: u8) -> u16 {
    (high * 256 + low) as u16
}

/// The high byte of a word.
pub open spec fn high(word: u16) -> u8 {
    (word / 256) as u8
}

/// The low byte of a word.
pub open spec fn low(word: u16) -> u8 {
    (word % 256) as u8
}

/// A byte plus a small step, modulo 256.
pub open spec fn wrap8(value: int) -> u8 {
    (value % 256) as u8
}

/// A word plus a small step, modulo 65536.
pub open spec fn wrap16(value: int) -> u16 {
    (value % 65536) as u16
}

/// The value of a byte read as a two's-complement number.
pub open spec fn signed(byte: u8) -> int {
    if byte < 128 {
        byte as int
    } else {
        byte - 256
    }
}

/// What an addition or subtraction leaves: the 8-bit result and the carry
/// and overflow flags.
pub struct Sum {
    pub result: u8,
    pub carry: bool,
    pub overflow: bool,
}

/// The overflow rule of the adder: both inputs have the same sign, and the
/// result has the other one.
pub open spec fn sign_overflow(a: u8, m: u8, result: u8) -> bool {
    (a >= 0x80) == (m >= 0x80) && (a >= 0x80) != (result >= 0x80)
}

/// The sign rule in the form in which the adder computes it: bit 7 of both
/// inputs differs from bit 7 of the result.
pub proof fn lemma_sign_overflow_bits(a: u8, m: u8, result: u8)
    by (bit_vector)
    ensures
        ((a ^ result) & (m ^ result) & 0x80 == 0x80) == ((a >= 0x80) == (m >= 0x80) && (a >= 0x80)
            != (result >= 0x80)),
{
}

/// Binary addition `a + m + carry`: the result is the sum modulo 256 and the
/// carry is the ninth bit of the sum.
pub open spec fn add_with_carry(a: u8, m: u8, carry: bool) -> Sum {
    let sum = a + m + if carry { 1int } else { 0int };
    let result = wrap8(sum);
    Sum { result, carry: sum > 255, overflow: sign_overflow(a, m, result) }
}

/// Binary subtraction `a - m - (1 - carry)`: the carry that comes out is set
/// exactly when no borrow was needed, and overflow is that of the addition
/// of the complement of `m`.
pub open spec fn subtract_with_borrow(a: u8, m: u8, carry: bool) -> Sum {
    let difference = a - m - if carry { 0int } else { 1int };
    let result = wrap8(difference);
    Sum { result, carry: difference >= 0, overflow: sign_overflow(a, (255 - m) as u8, result) }
}

/// The status after comparing a register with a value: carry when the
/// register is not below the value, zero when they are equal, negative from
/// bit 7 of the 8-bit difference.
pub open spec fn compared(ps: Status, register: u8, value: u8) -> Status {
    Status {
        carry: register >= value,
        zero_result: register == value,
        negative_result: wrap8(register - value) >= 0x80,
        ..ps
    }
}

/// The status after BIT: zero from `a & value`, negative and overflow from
/// bits 7 and 6 of the value.
pub open spec fn bit_tested(ps: Status, a: u8, value: u8) -> Status {
    Status {
        zero_result: a & value == 0,
        negative_result: value >= 0x80,
        overflow: (value / 64) % 2 == 1,
        ..ps
    }
}

/// The registers after an instruction that consumes one operand byte and
/// touches nothing but the registers.
pub open spec fn apply(r: Registers, instruction: Instruction, value: u8) -> Registers {
    match instruction {
        Instruction::Lda => Registers { a: value, ps: r.ps.with_zn(value), ..r },
        Instruction::Ldx => Registers { x: value, ps: r.ps.with_zn(value), ..r },
        Instruction::Ldy => Registers { y: value, ps: r.ps.with_zn(value), ..r },
        Instruction::Adc => {
            let sum = add_with_carry(r.a, value, r.ps.carry);
            Registers {
                a: sum.result,
                ps: Status { carry: sum.carry, overflow: sum.overflow, ..r.ps }.with_zn(sum.result),
                ..r
            }
        },
        Instruction::Sbc => {
            let sum = subtract_with_borrow(r.a, value, r.ps.carry);
            Registers {
                a: sum.result,
                ps: Status { carry: sum.carry, overflow: sum.overflow, ..r.ps }.with_zn(sum.result),
                ..r
            }
        },
        Instruction::And => Registers { a: r.a & value, ps: r.ps.with_zn(r.a & value), ..r },
        Instruction::Eor => Registers { a: r.a ^ value, ps: r.ps.with_zn(r.a ^ value), ..r },
        Instruction::Ora => Registers { a: r.a | value, ps: r.ps.with_zn(r.a | value), ..r },
        Instruction::Bit => Registers { ps: bit_tested(r.ps, r.a, value), ..r },
        Instruction::Cmp => Registers { ps: compared(r.ps, r.a, value), ..r },
        Instruction::Cpx => Registers { ps: compared(r.ps, r.x, value), ..r },
        Instruction::Cpy => Registers { ps: compared(r.ps, r.y, value), ..r },
        _ => r,
    }
}

/// Whether `apply` gives the instruction its meaning.
pub open spec fn takes_operand(instruction: Instruction) -> bool {
    matches!(
        instruction,
        Instruction::Lda | Instruction::Ldx | Instruction::Ldy | Instruction::Adc
            | Instruction::Sbc | Instruction::And | Instruction::Eor | Instruction::Ora
            | Instruction::Bit | Instruction::Cmp | Instruction::Cpx | Instruction::Cpy
    )
}

/// The byte and the status that a shift, rotate, increment or decrement makes
/// of a byte.
pub open spec fn modify(ps: Status, instruction: Instruction, value: u8) -> (u8, Status) {
    match instruction {
        Instruction::Asl => {
            let result = wrap8(value * 2);
            (result, Status { carry: value >= 0x80, ..ps }.with_zn(result))
        },
        Instruction::Lsr => {
            let result = (value / 2) as u8;
            (result, Status { carry: value % 2 == 1, ..ps }.with_zn(result))
        },
        Instruction::Rol => {
            let result = wrap8(value * 2 + if ps.carry { 1int } else { 0int });
            (result, Status { carry: value >= 0x80, ..ps }.with_zn(result))
        },
        Instruction::Ror => {
            let result = (value / 2 + if ps.carry { 128int } else { 0int }) as u8;
            (result, Status { carry: value % 2 == 1, ..ps }.with_zn(result))
        },
        Instruction::Inc => {
            let result = wrap8(value + 1);
            (result, ps.with_zn(result))
        },
        Instruction::Dec => {
            let result = wrap8(value - 1);
            (result, ps.with_zn(result))
        },
        _ => (value, ps),
    }
}

/// Whether `modify` gives the instruction its meaning.
pub open spec fn modifies(instruction: Instruction) -> bool {
    matches!(
        instruction,
        Instruction::Asl | Instruction::Lsr | Instruction::Rol | Instruction::Ror
            | Instruction::Inc | Instruction::Dec
    )
}

/// The registers after an instruction without operand that touches nothing
/// but the registers: index steps, transfers, flag changes and NOP.
pub open spec fn implied_effect(r: Registers, instruction: Instruction) -> Registers {
    match instruction {
        Instruction::Inx => Registers { x: wrap8(r.x + 1), ps: r.ps.with_zn(wrap8(r.x + 1)), ..r },
        Instruction::Iny => Registers { y: wrap8(r.y + 1), ps: r.ps.with_zn(wrap8(r.y + 1)), ..r },
        Instruction::Dex => Registers { x: wrap8(r.x - 1), ps: r.ps.with_zn(wrap8(r.x - 1)), ..r },
        Instruction::Dey => Registers { y: wrap8(r.y - 1), ps: r.ps.with_zn(wrap8(r.y - 1)), ..r },
        Instruction::Tax => Registers { x: r.a, ps: r.ps.with_zn(r.a), ..r },
        Instruction::Tay => Registers { y: r.a, ps: r.ps.with_zn(r.a), ..r },
        Instruction::Txa => Registers { a: r.x, ps: r.ps.with_zn(r.x), ..r },
        Instruction::Tya => Registers { a: r.y, ps: r.ps.with_zn(r.y), ..r },
        Instruction::Tsx => Registers { x: r.sp, ps: r.ps.with_zn(r.sp), ..r },
        Instruction::Txs => Registers { sp: r.x, ..r },
        Instruction::Clc => Registers { ps: Status { carry: false, ..r.ps }, ..r },
        Instruction::Sec => Registers { ps: Status { carry: true, ..r.ps }, ..r },
        Instruction::Cld => Registers { ps: Status { decimal_mode: false, ..r.ps }, ..r },
        Instruction::Sed => Registers { ps: Status { decimal_mode: true, ..r.ps }, ..r },
        Instruction::Cli => Registers { ps: Status { interrupt_disable: false, ..r.ps }, ..r },
        Instruction::Sei => Registers { ps: Status { interrupt_disable: true, ..r.ps }, ..r },
        Instruction::Clv => Registers { ps: Status { overflow: false, ..r.ps }, ..r },
        _ => r,
    }
}

/// Whether `implied_effect` gives the instruction its meaning.
pub open spec fn is_implied_effect(instruction: Instruction) -> bool {
    matches!(
        instruction,
        Instruction::Inx | Instruction::Iny | Instruction::Dex | Instruction::Dey
            | Instruction::Tax | Instruction::Tay | Instruction::Txa | Instruction::Tya
            | Instruction::Tsx | Instruction::Txs | Instruction::Clc | Instruction::Sec
            | Instruction::Cld | Instruction::Sed | Instruction::Cli | Instruction::Sei
            | Instruction::Clv | Instruction::Nop
    )
}

/// Whether a branch instruction is taken in the given status.
pub open spec fn branch_taken(ps: Status, instruction: Instruction) -> bool {
    match instruction {
        Instruction::Bcc => !ps.carry,
        Instruction::Bcs => ps.carry,
        Instruction::Bne => !ps.zero_result,
        Instruction::Beq => ps.zero_result,
        Instruction::Bpl => !ps.negative_result,
        Instruction::Bmi => ps.negative_result,
        Instruction::Bvc => !ps.overflow,
        Instruction::Bvs => ps.overflow,
        _ => false,
    }
}

/// Whether the instruction is one of the eight conditional branches.
pub open spec fn is_branch(instruction: Instruction) -> bool {
    matches!(
        instruction,
        Instruction::Bcc | Instruction::Bcs | Instruction::Bne | Instruction::Beq
            | Instruction::Bpl | Instruction::Bmi | Instruction::Bvc | Instruction::Bvs
    )
}

/// The register that a store instruction writes.
pub open spec fn stored(r: Registers, instruction: Instruction) -> u8 {
    match instruction {
        Instruction::Stx => r.x,
        Instruction::Sty => r.y,
        _ => r.a,
    }
}

/// The status that PLP installs from a pulled byte: every flag from the
/// byte, but the hardwired bit stays set.
pub open spec fn pulled_status(byte: u8) -> Status {
    Status { unused: true, ..Status::unpacked(byte) }
}

/// The status that RTI installs from a pulled byte: as PLP, but the break
/// flag is not taken from the byte.
pub open spec fn returned_status(ps: Status, byte: u8) -> Status {
    Status { unused: true, break_command: ps.break_command, ..Status::unpacked(byte) }
}

pub fn make_word(high_byte: u8, low_byte: u8) -> (value: u16)
    ensures
        value == word(high_byte, low_byte),
        high(value) == high_byte,
        low(value) == low_byte,
{
    high_byte as u16 * 256 + low_byte as u16
}

pub fn high_byte(value: u16) -> (byte: u8)
    ensures
        byte == high(value),
{
    (value / 256) as u8
}

pub fn low_byte(value: u16) -> (byte: u8)
    ensures
        byte == low(value),
{
    (value % 256) as u8
}

/// Adds two bytes and a carry: the sum modulo 256 and the carry out of it.
pub fn add_bytes(a: u8, m: u8, carry: bool) -> (sum: (u8, bool))
    ensures
        sum.0 == add_with_carry(a, m, carry).result,
        sum.1 == add_with_carry(a, m, carry).carry,
{
    let carry_in: u16 = if carry { 1 } else { 0 };
    let total: u16 = a as u16 + m as u16 + carry_in;
    if total > 0xff {
        assert(total as int % 256 == total - 256);
        ((total - 256) as u8, true)
    } else {
        assert(total as int % 256 == total);
        (total as u8, false)
    }
}

/// Subtracts a byte and a borrow, which is the carry inverted: the
/// difference modulo 256 and the carry out of it, clear where the
/// subtraction borrowed.
pub fn subtract_bytes(a: u8, m: u8, carry: bool) -> (difference: (u8, bool))
    ensures
        difference.0 == subtract_with_borrow(a, m, carry).result,
        difference.1 == subtract_with_borrow(a, m, carry).carry,
{
    let borrow_in: i16 = if carry { 0 } else { 1 };
    let total: i16 = a as i16 - m as i16 - borrow_in;
    if total >= 0 {
        assert(total as int % 256 == total);
        (total as u8, true)
    } else {
        assert(total as int % 256 == total + 256);
        ((total + 256) as u8, false)
    }
}

/// The byte that follows `value`, or the one `step` further on, modulo 256.
pub fn add8(value: u8, step: u8) -> (sum: u8)
    ensures
        sum == wrap8(value + step),
{
    ((value as u16 + step as u16) % 256) as u8
}

/// The byte before `value`, modulo 256.
pub fn previous8(value: u8) -> (byte: u8)
    ensures
        byte == wrap8(value - 1),
{
    if value == 0 {
        0xff
    } else {
        value - 1
    }
}

/// The word `step` after `value`, modulo 65536.
pub fn add16(value: u16, step: u16) -> (sum: u16)
    ensures
        sum == wrap16(value + step),
{
    ((value as u32 + step as u32) % 65536) as u16
}

} // verus!
