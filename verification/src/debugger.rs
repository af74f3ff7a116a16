use crate::addressing_mode::{mode_of, AddressingMode};
use crate::alu::{make_word, word};
use crate::instructions::{instruction_of, Instruction};
use vstd::prelude::*;
use vstd::string::*;

verus! {

/// The digit for a value below 16, upper case.
pub open spec fn hex_digit(value: u8) -> char {
    match value {
        0 => '0',
        1 => '1',
        2 => '2',
        3 => '3',
        4 => '4',
        5 => '5',
        6 => '6',
        7 => '7',
        8 => '8',
        9 => '9',
        10 => 'A',
        11 => 'B',
        12 => 'C',
        13 => 'D',
        14 => 'E',
        _ => 'F',
    }
}

/// A byte as two hexadecimal digits.
pub open spec fn hex2(value: u8) -> Seq<char> {
    seq![hex_digit(value / 16), hex_digit(value % 16)]
}

/// A word as four hexadecimal digits.
pub open spec fn hex4(value: u16) -> Seq<char> {
    hex2((value / 256) as u8) + hex2((value % 256) as u8)
}

/// A number in decimal, without leading zeros.
pub open spec fn decimal(value: nat) -> Seq<char>
    decreases value,
{
    if value < 10 {
        seq![hex_digit(value as u8)]
    } else {
        decimal(value / 10).push(hex_digit((value % 10) as u8))
    }
}

/// `count` spaces.
pub open spec fn spaces(count: nat) -> Seq<char> {
    Seq::new(count, |i: int| ' ')
}

/// The text, filled with spaces on the right up to `width` characters.
pub open spec fn padded(text: Seq<char>, width: nat) -> Seq<char> {
    if text.len() >= width {
        text
    } else {
        text + spaces((width - text.len()) as nat)
    }
}

/// Bytes as two hexadecimal digits each, with `separator` between them.
pub open spec fn hex_list(bytes: Seq<u8>, separator: Seq<char>) -> Seq<char>
    decreases bytes.len(),
{
    if bytes.len() == 0 {
        Seq::empty()
    } else if bytes.len() == 1 {
        hex2(bytes[0])
    } else {
        hex_list(bytes.drop_last(), separator) + separator + hex2(bytes.last())
    }
}

/// A slice of the stack as the trace shows it: the bytes in brackets,
/// separated by a comma and a space.
pub open spec fn stack_text(bytes: Seq<u8>) -> Seq<char> {
    "["@ + hex_list(bytes, ", "@) + "]"@
}

/// A branch offset: a star, the sign, and the distance in decimal.
pub open spec fn offset_text(offset: u8) -> Seq<char> {
    if offset < 0x80 {
        "*+"@ + decimal(offset as nat)
    } else {
        "*-"@ + decimal((256 - offset) as nat)
    }
}

/// The operand of an instruction as the disassembly shows it.
pub open spec fn operand_text(mode: AddressingMode, low_byte: u8, high_byte: u8) -> Seq<char> {
    match mode {
        AddressingMode::Absolute => "$"@ + hex4(word(high_byte, low_byte)),
        AddressingMode::AbsoluteX => "$"@ + hex4(word(high_byte, low_byte)) + ",X"@,
        AddressingMode::AbsoluteY => "$"@ + hex4(word(high_byte, low_byte)) + ",Y"@,
        AddressingMode::Accumulator => "A"@,
        AddressingMode::Immediate => "#$"@ + hex2(low_byte),
        AddressingMode::IndirectAbsolute => "($"@ + hex4(word(high_byte, low_byte)) + ")"@,
        AddressingMode::IndirectZeroPageX => "($"@ + hex2(low_byte) + ",X)"@,
        AddressingMode::IndirectZeroPageY => "($"@ + hex2(low_byte) + "),Y"@,
        AddressingMode::Relative => offset_text(low_byte),
        AddressingMode::ZeroPage => "$"@ + hex2(low_byte),
        AddressingMode::ZeroPageX => "$"@ + hex2(low_byte) + ",X"@,
        AddressingMode::ZeroPageY => "$"@ + hex2(low_byte) + ",Y"@,
        _ => Seq::empty(),
    }
}

/// The mnemonic, and after one space the operand where the mode has one.
pub open spec fn disassembly_text(
    mnemonic: Seq<char>,
    mode: AddressingMode,
    low_byte: u8,
    high_byte: u8,
) -> Seq<char> {
    if mode == AddressingMode::Implied {
        mnemonic
    } else {
        mnemonic + " "@ + operand_text(mode, low_byte, high_byte)
    }
}

/// The operand byte at `index` of an instruction's bytes, 0 where the
/// instruction is shorter.
pub open spec fn byte_or_zero(bytes: Seq<u8>, index: int) -> u8 {
    if index < bytes.len() {
        bytes[index]
    } else {
        0
    }
}

/// Every opcode with an addressing mode has an instruction, and the other
/// way round.
pub proof fn lemma_tables_agree(opcode: u8)
    ensures
        mode_of(opcode) == AddressingMode::Unimplemented <==> instruction_of(opcode)
            == Instruction::Unimplemented,
{
}

fn hex_digit_str(value: u8) -> (text: &'static str)
    requires
        value < 16,
    ensures
        text@ == seq![hex_digit(value)],
{
    proof {
        reveal_strlit("0");
        reveal_strlit("1");
        reveal_strlit("2");
        reveal_strlit("3");
        reveal_strlit("4");
        reveal_strlit("5");
        reveal_strlit("6");
        reveal_strlit("7");
        reveal_strlit("8");
        reveal_strlit("9");
        reveal_strlit("A");
        reveal_strlit("B");
        reveal_strlit("C");
        reveal_strlit("D");
        reveal_strlit("E");
        reveal_strlit("F");
    }
    let text = match value {
        0 => "0",
        1 => "1",
        2 => "2",
        3 => "3",
        4 => "4",
        5 => "5",
        6 => "6",
        7 => "7",
        8 => "8",
        9 => "9",
        10 => "A",
        11 => "B",
        12 => "C",
        13 => "D",
        14 => "E",
        _ => "F",
    };
    assert(text@ =~= seq![hex_digit(value)]);
    text
}

/// Appends a byte as two hexadecimal digits.
pub fn push_hex2(text: &mut String, value: u8)
    ensures
        final(text)@ == old(text)@ + hex2(value),
{
    text.append(hex_digit_str(value / 16));
    text.append(hex_digit_str(value % 16));
    assert(text@ =~= old(text)@ + hex2(value));
}

/// Appends a word as four hexadecimal digits.
pub fn push_hex4(text: &mut String, value: u16)
    ensures
        final(text)@ == old(text)@ + hex4(value),
{
    push_hex2(text, (value / 256) as u8);
    push_hex2(text, (value % 256) as u8);
    assert(text@ =~= old(text)@ + hex4(value));
}

/// Appends a number in decimal.
pub fn push_decimal(text: &mut String, value: u64)
    ensures
        final(text)@ == old(text)@ + decimal(value as nat),
    decreases value,
{
    if value >= 10 {
        push_decimal(text, value / 10);
    }
    text.append(hex_digit_str((value % 10) as u8));
    assert(text@ =~= old(text)@ + decimal(value as nat));
}

/// Appends the spaces that fill a text of `length` characters up to `width`.
pub fn push_padding(text: &mut String, length: usize, width: usize)
    ensures
        final(text)@ == old(text)@ + spaces(
            if length >= width {
                0
            } else {
                (width - length) as nat
            },
        ),
{
    let mut filled: usize = length;
    assert(text@ =~= old(text)@ + spaces(0));
    while filled < width
        invariant
            length <= filled,
            length < width ==> filled <= width,
            length >= width ==> filled == length,
            text@ == old(text)@ + spaces((filled - length) as nat),
        decreases width - filled,
    {
        proof {
            reveal_strlit(" ");
        }
        text.append(" ");
        filled = filled + 1;
        assert(text@ =~= old(text)@ + spaces((filled - length) as nat));
    }
}

/// Appends bytes as `hex_list` describes, with a comma and a space between
/// them where `commas` is set and a single space otherwise.
pub fn push_hex_list(text: &mut String, bytes: &Vec<u8>, commas: bool)
    ensures
        final(text)@ == old(text)@ + hex_list(bytes@, if commas { ", "@ } else { " "@ }),
{
    let ghost separator = if commas { ", "@ } else { " "@ };
    let mut index: usize = 0;
    assert(bytes@.take(0) =~= Seq::empty());
    assert(text@ =~= old(text)@ + hex_list(bytes@.take(0), separator));
    while index < bytes.len()
        invariant
            index <= bytes.len(),
            separator == (if commas { ", "@ } else { " "@ }),
            text@ == old(text)@ + hex_list(bytes@.take(index as int), separator),
        decreases bytes.len() - index,
    {
        let ghost before = bytes@.take(index as int);
        let ghost after = bytes@.take(index + 1);
        assert(after.drop_last() =~= before);
        assert(after.last() == bytes@[index as int]);
        if index > 0 {
            text.append(if commas { ", " } else { " " });
        }
        push_hex2(text, bytes[index]);
        assert(text@ =~= old(text)@ + hex_list(after, separator));
        index = index + 1;
    }
    assert(bytes@.take(index as int) =~= bytes@);
}

/// Appends `piece`, filled with spaces on the right up to `width` characters.
pub fn push_padded(text: &mut String, piece: &String, width: usize)
    ensures
        final(text)@ == old(text)@ + padded(piece@, width as nat),
{
    let length = piece.as_str().unicode_len();
    text.append(piece.as_str());
    push_padding(text, length, width);
    assert(text@ =~= old(text)@ + padded(piece@, width as nat));
}

/// Appends bytes as `stack_text` describes.
pub fn push_stack(text: &mut String, bytes: &Vec<u8>)
    ensures
        final(text)@ == old(text)@ + stack_text(bytes@),
{
    text.append("[");
    push_hex_list(text, bytes, true);
    text.append("]");
    assert(text@ =~= old(text)@ + stack_text(bytes@));
}

/// Appends a branch offset as `offset_text` describes.
pub fn push_offset(text: &mut String, offset: u8)
    ensures
        final(text)@ == old(text)@ + offset_text(offset),
{
    if offset < 0x80 {
        text.append("*+");
        push_decimal(text, offset as u64);
        assert(text@ =~= old(text)@ + offset_text(offset));
    } else {
        text.append("*-");
        push_decimal(text, (256 - offset as u16) as u64);
        assert(text@ =~= old(text)@ + offset_text(offset));
    }
}

/// Appends `prefix`, a byte in hexadecimal and `suffix`.
fn push_wrapped_byte(text: &mut String, prefix: &str, value: u8, suffix: &str)
    ensures
        final(text)@ == old(text)@ + (prefix@ + hex2(value) + suffix@),
{
    text.append(prefix);
    push_hex2(text, value);
    text.append(suffix);
    assert(text@ =~= old(text)@ + (prefix@ + hex2(value) + suffix@));
}

/// Appends `prefix`, a word in hexadecimal and `suffix`.
fn push_wrapped_word(text: &mut String, prefix: &str, value: u16, suffix: &str)
    ensures
        final(text)@ == old(text)@ + (prefix@ + hex4(value) + suffix@),
{
    text.append(prefix);
    push_hex4(text, value);
    text.append(suffix);
    assert(text@ =~= old(text)@ + (prefix@ + hex4(value) + suffix@));
}

/// Appends an operand as `operand_text` describes.
pub fn push_operand(text: &mut String, mode: AddressingMode, low_byte: u8, high_byte: u8)
    ensures
        final(text)@ == old(text)@ + operand_text(mode, low_byte, high_byte),
{
    proof {
        reveal_strlit("");
    }
    let address = make_word(high_byte, low_byte);
    match mode {
        AddressingMode::Absolute => {
            push_wrapped_word(text, "$", address, "");
            assert("$"@ + hex4(address) + ""@ =~= "$"@ + hex4(address));
        },
        AddressingMode::AbsoluteX => push_wrapped_word(text, "$", address, ",X"),
        AddressingMode::AbsoluteY => push_wrapped_word(text, "$", address, ",Y"),
        AddressingMode::Accumulator => text.append("A"),
        AddressingMode::Immediate => {
            push_wrapped_byte(text, "#$", low_byte, "");
            assert("#$"@ + hex2(low_byte) + ""@ =~= "#$"@ + hex2(low_byte));
        },
        AddressingMode::IndirectAbsolute => push_wrapped_word(text, "($", address, ")"),
        AddressingMode::IndirectZeroPageX => push_wrapped_byte(text, "($", low_byte, ",X)"),
        AddressingMode::IndirectZeroPageY => push_wrapped_byte(text, "($", low_byte, "),Y"),
        AddressingMode::Relative => push_offset(text, low_byte),
        AddressingMode::ZeroPage => {
            push_wrapped_byte(text, "$", low_byte, "");
            assert("$"@ + hex2(low_byte) + ""@ =~= "$"@ + hex2(low_byte));
        },
        AddressingMode::ZeroPageX => push_wrapped_byte(text, "$", low_byte, ",X"),
        AddressingMode::ZeroPageY => push_wrapped_byte(text, "$", low_byte, ",Y"),
        _ => {
            assert(old(text)@ + Seq::<char>::empty() =~= old(text)@);
        },
    }
}

/// One instruction as it lies in memory, decoded for display.
pub struct Decoded {
    pub byte_code: Vec<u8>,
    pub opcode: u8,
    pub mnemonic: &'static str,
    pub addressing_mode: AddressingMode,
}

impl Decoded {
    /// The record describes the instruction that its bytes hold.
    pub open spec fn wf(&self) -> bool {
        &&& self.addressing_mode == mode_of(self.opcode)
        &&& self.addressing_mode != AddressingMode::Unimplemented
        &&& self.mnemonic@ == instruction_of(self.opcode).mnemonic()
        &&& self.byte_code@.len() == self.addressing_mode.size()
        &&& self.byte_code@[0] == self.opcode
    }

    /// The instruction's bytes in hexadecimal, separated by spaces.
    pub open spec fn byte_code_text(&self) -> Seq<char> {
        hex_list(self.byte_code@, " "@)
    }

    /// The instruction in assembler notation.
    pub open spec fn disassembly_text(&self) -> Seq<char> {
        disassembly_text(
            self.mnemonic@,
            self.addressing_mode,
            byte_or_zero(self.byte_code@, 1),
            byte_or_zero(self.byte_code@, 2),
        )
    }

    /// Decodes the instruction whose bytes are `opcode` and, as far as its
    /// mode has them, `low_byte` and `high_byte`; there is none for a byte
    /// that is no documented opcode.
    pub fn new(opcode: u8, low_byte: u8, high_byte: u8) -> (decoded: Option<Decoded>)
        ensures
            decoded.is_some() <==> mode_of(opcode) != AddressingMode::Unimplemented,
            decoded matches Some(d) ==> {
                &&& d.wf()
                &&& d.opcode == opcode
                &&& d.byte_code@ == seq![opcode, low_byte, high_byte].take(
                    mode_of(opcode).size() as int,
                )
            },
    {
        let addressing_mode = AddressingMode::for_opcode(opcode);
        if addressing_mode == AddressingMode::Unimplemented {
            return None;
        }
        proof {
            lemma_tables_agree(opcode);
        }
        let mnemonic = Instruction::for_opcode(opcode).as_str();
        let length = addressing_mode.len();
        let mut byte_code: Vec<u8> = Vec::new();
        byte_code.push(opcode);
        if length >= 2 {
            byte_code.push(low_byte);
        }
        if length >= 3 {
            byte_code.push(high_byte);
        }
        assert(byte_code@ =~= seq![opcode, low_byte, high_byte].take(length as int));
        Some(Decoded { byte_code, opcode, mnemonic, addressing_mode })
    }

    /// Renders the bytes as `byte_code_text` describes.
    pub fn byte_code(&self) -> (text: String)
        ensures
            text@ == self.byte_code_text(),
    {
        let mut text = String::new();
        push_hex_list(&mut text, &self.byte_code, false);
        assert(text@ =~= self.byte_code_text());
        text
    }

    /// Renders the instruction as `disassembly_text` describes.
    pub fn disassembly(&self) -> (text: String)
        requires
            self.addressing_mode != AddressingMode::Unimplemented,
        ensures
            text@ == self.disassembly_text(),
    {
        let low_byte = if self.byte_code.len() > 1 { self.byte_code[1] } else { 0 };
        let high_byte = if self.byte_code.len() > 2 { self.byte_code[2] } else { 0 };
        let mut text = String::from_str(self.mnemonic);
        if self.addressing_mode != AddressingMode::Implied {
            text.append(" ");
            push_operand(&mut text, self.addressing_mode, low_byte, high_byte);
        }
        text
    }
}

/// Every mnemonic has three letters.
pub proof fn lemma_mnemonic_len(instruction: Instruction)
    ensures
        instruction.mnemonic().len() == 3,
{
    reveal_strlit("ADC");
    reveal_strlit("AND");
    reveal_strlit("ASL");
    reveal_strlit("BCC");
    reveal_strlit("BCS");
    reveal_strlit("BEQ");
    reveal_strlit("BIT");
    reveal_strlit("BMI");
    reveal_strlit("BNE");
    reveal_strlit("BPL");
    reveal_strlit("BRK");
    reveal_strlit("BVC");
    reveal_strlit("BVS");
    reveal_strlit("CLC");
    reveal_strlit("CLD");
    reveal_strlit("CLI");
    reveal_strlit("CLV");
    reveal_strlit("CMP");
    reveal_strlit("CPX");
    reveal_strlit("CPY");
    reveal_strlit("DEC");
    reveal_strlit("DEX");
    reveal_strlit("DEY");
    reveal_strlit("EOR");
    reveal_strlit("INC");
    reveal_strlit("INX");
    reveal_strlit("INY");
    reveal_strlit("JMP");
    reveal_strlit("JSR");
    reveal_strlit("LDA");
    reveal_strlit("LDX");
    reveal_strlit("LDY");
    reveal_strlit("LSR");
    reveal_strlit("NOP");
    reveal_strlit("ORA");
    reveal_strlit("PHA");
    reveal_strlit("PHP");
    reveal_strlit("PLA");
    reveal_strlit("PLP");
    reveal_strlit("ROL");
    reveal_strlit("ROR");
    reveal_strlit("RTI");
    reveal_strlit("RTS");
    reveal_strlit("SBC");
    reveal_strlit("SEC");
    reveal_strlit("SED");
    reveal_strlit("SEI");
    reveal_strlit("STA");
    reveal_strlit("STX");
    reveal_strlit("STY");
    reveal_strlit("TAX");
    reveal_strlit("TAY");
    reveal_strlit("TSX");
    reveal_strlit("TXA");
    reveal_strlit("TXS");
    reveal_strlit("TYA");
    reveal_strlit("UNI");
}

/// A number below 1000 has one to three decimal digits.
pub proof fn lemma_decimal_len(value: nat)
    requires
        value < 1000,
    ensures
        1 <= decimal(value).len() <= 3,
{
    reveal_with_fuel(decimal, 3);
}

/// Bytes in hexadecimal with single spaces between them take three
/// characters each, less one.
pub proof fn lemma_byte_code_len(bytes: Seq<u8>)
    requires
        bytes.len() > 0,
    ensures
        hex_list(bytes, " "@).len() == 3 * bytes.len() - 1,
    decreases bytes.len(),
{
    reveal_strlit(" ");
    if bytes.len() > 1 {
        lemma_byte_code_len(bytes.drop_last());
    }
}

/// No operand is longer than seven characters.
pub proof fn lemma_operand_len(mode: AddressingMode, low_byte: u8, high_byte: u8)
    ensures
        operand_text(mode, low_byte, high_byte).len() <= 7,
{
    reveal_strlit("$");
    reveal_strlit(",X");
    reveal_strlit(",Y");
    reveal_strlit("A");
    reveal_strlit("#$");
    reveal_strlit("($");
    reveal_strlit(")");
    reveal_strlit(",X)");
    reveal_strlit("),Y");
    reveal_strlit("*+");
    reveal_strlit("*-");
    if low_byte < 0x80 {
        lemma_decimal_len(low_byte as nat);
    } else {
        lemma_decimal_len((256 - low_byte) as nat);
    }
}

/// The columns of the trace fit: the bytes of an instruction never take
/// more than 8 characters and its disassembly never more than 11, so that
/// padding makes every line's columns equally wide.
pub proof fn lemma_columns_fit(opcode: u8, low_byte: u8, high_byte: u8)
    requires
        mode_of(opcode) != AddressingMode::Unimplemented,
    ensures
        ({
            let bytes = seq![opcode, low_byte, high_byte].take(mode_of(opcode).size() as int);
            let byte_code = hex_list(bytes, " "@);
            let disassembly = disassembly_text(
                instruction_of(opcode).mnemonic(),
                mode_of(opcode),
                low_byte,
                high_byte,
            );
            &&& byte_code.len() <= 8
            &&& disassembly.len() <= 11
            &&& padded(byte_code, 8).len() == 8
            &&& padded(disassembly, 11).len() == 11
        }),
{
    reveal_strlit(" ");
    let bytes = seq![opcode, low_byte, high_byte].take(mode_of(opcode).size() as int);
    lemma_byte_code_len(bytes);
    lemma_mnemonic_len(instruction_of(opcode));
    lemma_operand_len(mode_of(opcode), low_byte, high_byte);
}

} // verus!
