use vstd::prelude::*;
use vstd::string::*;

verus! {

/// The processor status register `P`, one field per flag.
///
/// The packed byte carries the flags from bit 0 to bit 7 in the order
/// carry, zero, interrupt-disable, decimal, break, unused, overflow, negative.
#[derive(Debug, Clone, Copy, PartialEq, Eq, Structural)]
pub struct Status {
    pub carry: bool,
    pub zero_result: bool,
    pub interrupt_disable: bool,
    pub decimal_mode: bool,
    pub break_command: bool,
    pub unused: bool,
    pub overflow: bool,
    pub negative_result: bool,
}

/// What a flag adds to the packed byte: its weight where it is set.
pub open spec fn flag_value(flag: bool, weight: int) -> int {
    if flag {
        weight
    } else {
        0
    }
}

impl Status {
    pub const CARRY: u8 = 0x01;

    pub const ZERO_RESULT: u8 = 0x02;

    pub const INTERRUPT_DISABLE: u8 = 0x04;

    pub const DECIMAL_MODE: u8 = 0x08;

    pub const BREAK_COMMAND: u8 = 0x10;

    pub const UNUSED: u8 = 0x20;

    pub const OVERFLOW: u8 = 0x40;

    pub const NEGATIVE_RESULT: u8 = 0x80;

    /// The packed byte: each flag that is set adds two to the power of its
    /// bit number.
    pub open spec fn packed(self) -> u8 {
        (flag_value(self.carry, 1) + flag_value(self.zero_result, 2) + flag_value(
            self.interrupt_disable,
            4,
        ) + flag_value(self.decimal_mode, 8) + flag_value(self.break_command, 16) + flag_value(
            self.unused,
            32,
        ) + flag_value(self.overflow, 64) + flag_value(self.negative_result, 128)) as u8
    }

    /// The flags that `byte` packs: each flag is the binary digit of its bit
    /// number.
    pub open spec fn unpacked(byte: u8) -> Status {
        Status {
            carry: byte % 2 == 1,
            zero_result: (byte / 2) % 2 == 1,
            interrupt_disable: (byte / 4) % 2 == 1,
            decimal_mode: (byte / 8) % 2 == 1,
            break_command: (byte / 16) % 2 == 1,
            unused: (byte / 32) % 2 == 1,
            overflow: (byte / 64) % 2 == 1,
            negative_result: (byte / 128) % 2 == 1,
        }
    }

    /// The status with the zero and negative flags taken from an 8-bit
    /// result: zero exactly when it is 0, negative exactly when bit 7 is set.
    pub open spec fn with_zn(self, result: u8) -> Status {
        Status { zero_result: result == 0, negative_result: result >= 0x80, ..self }
    }

    /// The status as it is pushed by PHP and BRK: break and unused forced on.
    pub open spec fn pushed(self) -> Status {
        Status { break_command: true, unused: true, ..self }
    }

    pub fn from_bits_truncate(bits: u8) -> (status: Status)
        ensures
            status == Status::unpacked(bits),
            status.packed() == bits,
    {
        proof {
            lemma_masks_are_digits(bits);
            lemma_unpack_then_pack(bits);
        }
        Status {
            carry: bits & Status::CARRY != 0,
            zero_result: bits & Status::ZERO_RESULT != 0,
            interrupt_disable: bits & Status::INTERRUPT_DISABLE != 0,
            decimal_mode: bits & Status::DECIMAL_MODE != 0,
            break_command: bits & Status::BREAK_COMMAND != 0,
            unused: bits & Status::UNUSED != 0,
            overflow: bits & Status::OVERFLOW != 0,
            negative_result: bits & Status::NEGATIVE_RESULT != 0,
        }
    }

    pub fn bits(&self) -> (bits: u8)
        ensures
            bits == self.packed(),
            Status::unpacked(bits) == *self,
    {
        proof {
            lemma_pack_then_unpack(*self);
        }
        let c: u8 = if self.carry { Status::CARRY } else { 0 };
        let z: u8 = if self.zero_result { Status::ZERO_RESULT } else { 0 };
        let i: u8 = if self.interrupt_disable { Status::INTERRUPT_DISABLE } else { 0 };
        let d: u8 = if self.decimal_mode { Status::DECIMAL_MODE } else { 0 };
        let b: u8 = if self.break_command { Status::BREAK_COMMAND } else { 0 };
        let u: u8 = if self.unused { Status::UNUSED } else { 0 };
        let v: u8 = if self.overflow { Status::OVERFLOW } else { 0 };
        let n: u8 = if self.negative_result { Status::NEGATIVE_RESULT } else { 0 };
        proof {
            lemma_or_of_flags(c, z, i, d, b, u, v, n);
        }
        c | z | i | d | b | u | v | n
    }

    /// The eight flags as letters in the order `NVUBDIZC`, upper case for a
    /// flag that is set and lower case for one that is clear.
    pub open spec fn letters(self) -> Seq<char> {
        seq![
            if self.negative_result { 'N' } else { 'n' },
            if self.overflow { 'V' } else { 'v' },
            if self.unused { 'U' } else { 'u' },
            if self.break_command { 'B' } else { 'b' },
            if self.decimal_mode { 'D' } else { 'd' },
            if self.interrupt_disable { 'I' } else { 'i' },
            if self.zero_result { 'Z' } else { 'z' },
            if self.carry { 'C' } else { 'c' },
        ]
    }

    /// Renders the flags as `letters` describes.
    pub fn to_text(&self) -> (text: String)
        ensures
            text@ == self.letters(),
    {
        proof {
            reveal_strlit("N");
            reveal_strlit("n");
            reveal_strlit("V");
            reveal_strlit("v");
            reveal_strlit("U");
            reveal_strlit("u");
            reveal_strlit("B");
            reveal_strlit("b");
            reveal_strlit("D");
            reveal_strlit("d");
            reveal_strlit("I");
            reveal_strlit("i");
            reveal_strlit("Z");
            reveal_strlit("z");
            reveal_strlit("C");
            reveal_strlit("c");
        }
        let mut text = String::new();
        text.append(if self.negative_result { "N" } else { "n" });
        text.append(if self.overflow { "V" } else { "v" });
        text.append(if self.unused { "U" } else { "u" });
        text.append(if self.break_command { "B" } else { "b" });
        text.append(if self.decimal_mode { "D" } else { "d" });
        text.append(if self.interrupt_disable { "I" } else { "i" });
        text.append(if self.zero_result { "Z" } else { "z" });
        text.append(if self.carry { "C" } else { "c" });
        assert(text@ =~= self.letters());
        text
    }
}

/// A byte with a mask is non-zero exactly where the binary digit of the
/// mask's bit is 1.
pub proof fn lemma_masks_are_digits(byte: u8)
    by (bit_vector)
    ensures
        (byte & 0x01 != 0) == (byte % 2 == 1),
        (byte & 0x02 != 0) == ((byte / 2) % 2 == 1),
        (byte & 0x04 != 0) == ((byte / 4) % 2 == 1),
        (byte & 0x08 != 0) == ((byte / 8) % 2 == 1),
        (byte & 0x10 != 0) == ((byte / 16) % 2 == 1),
        (byte & 0x20 != 0) == ((byte / 32) % 2 == 1),
        (byte & 0x40 != 0) == ((byte / 64) % 2 == 1),
        (byte & 0x80 != 0) == ((byte / 128) % 2 == 1),
{
}

/// Bytes that hold one distinct bit each, or nothing, add up to what they
/// are or-ed to.
proof fn lemma_or_of_flags(c: u8, z: u8, i: u8, d: u8, b: u8, u: u8, v: u8, n: u8)
    by (bit_vector)
    requires
        c == 0x01 || c == 0,
        z == 0x02 || z == 0,
        i == 0x04 || i == 0,
        d == 0x08 || d == 0,
        b == 0x10 || b == 0,
        u == 0x20 || u == 0,
        v == 0x40 || v == 0,
        n == 0x80 || n == 0,
    ensures
        (c | z | i | d | b | u | v | n) == c + z + i + d + b + u + v + n,
{
}

proof fn lemma_digits_of_sum(c: bool, z: bool, i: bool, d: bool, b: bool, u: bool, v: bool, n: bool)
    by (bit_vector)
    ensures
        ({
            let sum = (if c { 1u8 } else { 0u8 }) + (if z { 2u8 } else { 0u8 }) + (if i {
                4u8
            } else {
                0u8
            }) + (if d { 8u8 } else { 0u8 }) + (if b { 16u8 } else { 0u8 }) + (if u {
                32u8
            } else {
                0u8
            }) + (if v { 64u8 } else { 0u8 }) + (if n { 128u8 } else { 0u8 });
            &&& sum <= 255
            &&& (sum % 2 == 1) == c
            &&& ((sum / 2) % 2 == 1) == z
            &&& ((sum / 4) % 2 == 1) == i
            &&& ((sum / 8) % 2 == 1) == d
            &&& ((sum / 16) % 2 == 1) == b
            &&& ((sum / 32) % 2 == 1) == u
            &&& ((sum / 64) % 2 == 1) == v
            &&& ((sum / 128) % 2 == 1) == n
        }),
{
}

proof fn lemma_sum_of_digits(byte: u8)
    by (bit_vector)
    ensures
        (if byte % 2 == 1 { 1u8 } else { 0u8 }) + (if (byte / 2) % 2 == 1 { 2u8 } else { 0u8 }) + (
        if (byte / 4) % 2 == 1 {
            4u8
        } else {
            0u8
        }) + (if (byte / 8) % 2 == 1 { 8u8 } else { 0u8 }) + (if (byte / 16) % 2 == 1 {
            16u8
        } else {
            0u8
        }) + (if (byte / 32) % 2 == 1 { 32u8 } else { 0u8 }) + (if (byte / 64) % 2 == 1 {
            64u8
        } else {
            0u8
        }) + (if (byte / 128) % 2 == 1 { 128u8 } else { 0u8 }) == byte,
{
}

/// A status packs into a byte, and unpacking that byte gives the status
/// back.
pub proof fn lemma_pack_then_unpack(status: Status)
    ensures
        Status::unpacked(status.packed()) == status,
{
    lemma_digits_of_sum(
        status.carry,
        status.zero_result,
        status.interrupt_disable,
        status.decimal_mode,
        status.break_command,
        status.unused,
        status.overflow,
        status.negative_result,
    );
}

/// Packing the flags that a byte unpacks to gives the byte back.
pub proof fn lemma_unpack_then_pack(byte: u8)
    ensures
        Status::unpacked(byte).packed() == byte,
{
    lemma_sum_of_digits(byte);
}

} // verus!
