use crate::addressing_mode::AddressingMode;
use crate::alu::{add8, high, low, make_word, word, wrap8};
use crate::bus::Bus;
use crate::cpu::{Cpu, State};
use vstd::prelude::*;

verus! {

impl<B: Bus> Cpu<B> {
    /// A two-byte address after the opcode, low byte first.
    pub open spec fn absolute(s: State<B::Model>) -> (State<B::Model>, u16) {
        let (s1, adl) = Self::next_byte(s);
        let (s2, adh) = Self::next_byte(s1);
        (s2, word(adh, adl))
    }

    /// A one-byte address in page zero.
    pub open spec fn zero_page(s: State<B::Model>) -> (State<B::Model>, u16) {
        let (s1, adl) = Self::next_byte(s);
        (s1, word(0x00, adl))
    }

    /// An address in page zero plus an index: the unindexed address is read
    /// once and the sum never leaves page zero.
    pub open spec fn zero_page_indexed(s: State<B::Model>, index: u8) -> (State<B::Model>, u16) {
        let (s1, bal) = Self::next_byte(s);
        let s2 = Self::bus_read(s1, word(0x00, bal)).0;
        (s2, word(0x00, wrap8(bal + index)))
    }

    /// `base` plus `index`. Where the low byte carries, the address in the
    /// page of `base` is read once and the result lies in the next page; the
    /// same read happens without a carry only where `always` asks for it.
    pub open spec fn indexed(s: State<B::Model>, base: u16, index: u8, always: bool) -> (
        State<B::Model>,
        u16,
    ) {
        let sum = low(base) + index;
        let same_page = word(high(base), wrap8(sum));
        if sum > 255 {
            (Self::bus_read(s, same_page).0, word(wrap8(high(base) + 1), wrap8(sum)))
        } else if always {
            (Self::bus_read(s, same_page).0, same_page)
        } else {
            (s, same_page)
        }
    }

    /// The address that the two bytes at a page-zero pointer plus X hold; the
    /// pointer wraps inside page zero.
    pub open spec fn indirect_x(s: State<B::Model>) -> (State<B::Model>, u16) {
        let (s1, bal) = Self::next_byte(s);
        let s2 = Self::bus_read(s1, word(0x00, bal)).0;
        let pointer = wrap8(bal + s.registers.x);
        let (s3, adl) = Self::bus_read(s2, word(0x00, pointer));
        let (s4, adh) = Self::bus_read(s3, word(0x00, wrap8(pointer + 1)));
        (s4, word(adh, adl))
    }

    /// The base address that the two bytes at a page-zero pointer hold; the
    /// pointer wraps inside page zero.
    pub open spec fn indirect_base(s: State<B::Model>) -> (State<B::Model>, u16) {
        let (s1, ial) = Self::next_byte(s);
        let (s2, bal) = Self::bus_read(s1, word(0x00, ial));
        let (s3, bah) = Self::bus_read(s2, word(0x00, wrap8(ial + 1)));
        (s3, word(bah, bal))
    }

    /// The effective address of an instruction in the given mode, and the
    /// state after the bus accesses that finding it takes. `write` selects
    /// the form that stores and read-modify-write instructions use, in which
    /// an indexed address always costs the extra read.
    pub open spec fn effective_address(s: State<B::Model>, mode: AddressingMode, write: bool) -> (
        State<B::Model>,
        u16,
    ) {
        match mode {
            AddressingMode::Absolute => Self::absolute(s),
            AddressingMode::AbsoluteX => {
                let (s1, base) = Self::absolute(s);
                Self::indexed(s1, base, s.registers.x, write)
            },
            AddressingMode::AbsoluteY => {
                let (s1, base) = Self::absolute(s);
                Self::indexed(s1, base, s.registers.y, write)
            },
            AddressingMode::ZeroPage => Self::zero_page(s),
            AddressingMode::ZeroPageX => Self::zero_page_indexed(s, s.registers.x),
            AddressingMode::ZeroPageY => Self::zero_page_indexed(s, s.registers.y),
            AddressingMode::IndirectZeroPageX => Self::indirect_x(s),
            AddressingMode::IndirectZeroPageY => {
                let (s1, base) = Self::indirect_base(s);
                Self::indexed(s1, base, s.registers.y, write)
            },
            _ => (s, s.registers.pc),
        }
    }

    /// The operand byte of an instruction in the given mode, and the state
    /// after the bus accesses that reading it takes.
    pub open spec fn operand(s: State<B::Model>, mode: AddressingMode) -> (State<B::Model>, u8) {
        match mode {
            AddressingMode::Immediate => Self::next_byte(s),
            AddressingMode::Accumulator => (Self::dummy_read(s), s.registers.a),
            _ => {
                let (s1, address) = Self::effective_address(s, mode, false);
                Self::bus_read(s1, address)
            },
        }
    }

    pub fn fetch_implied(&mut self)
        requires
            old(self).ready(1),
        ensures
            final(self).wf(),
            final(self)@ == Self::dummy_read(old(self)@),
    {
        self.read(self.registers.pc);
    }

    pub fn fetch_accumulator(&mut self) -> (value: u8)
        requires
            old(self).ready(1),
        ensures
            final(self).wf(),
            (final(self)@, value) == Self::operand(old(self)@, AddressingMode::Accumulator),
    {
        self.read(self.registers.pc);
        self.registers.a
    }

    pub fn fetch_immediate(&mut self) -> (value: u8)
        requires
            old(self).ready(1),
        ensures
            final(self).wf(),
            (final(self)@, value) == Self::operand(old(self)@, AddressingMode::Immediate),
    {
        self.fetch()
    }

    pub fn fetch_absolute(&mut self) -> (address: u16)
        requires
            old(self).ready(2),
        ensures
            final(self).wf(),
            final(self).cycle == old(self).cycle + 2,
            (final(self)@, address) == Self::effective_address(
                old(self)@,
                AddressingMode::Absolute,
                false,
            ),
            (final(self)@, address) == Self::effective_address(
                old(self)@,
                AddressingMode::Absolute,
                true,
            ),
    {
        let adl = self.fetch();
        let adh = self.fetch();
        make_word(adh, adl)
    }

    /// Adds `index` to the base address `bah:bal`, with the extra read of the
    /// address in the page of the base where the low byte carries or
    /// `always` is set.
    fn fetch_indexed(&mut self, bah: u8, bal: u8, index: u8, always: bool) -> (address: u16)
        requires
            old(self).ready(1),
        ensures
            final(self).wf(),
            final(self).cycle <= old(self).cycle + 1,
            (final(self)@, address) == Self::indexed(old(self)@, word(bah, bal), index, always),
    {
        let sum: u16 = bal as u16 + index as u16;
        let carry = sum > 255;
        let bal_i = (sum % 256) as u8;
        let same_page_address = make_word(bah, bal_i);
        if carry {
            let bah_c = add8(bah, 1);
            let next_page_address = make_word(bah_c, bal_i);
            self.read(same_page_address);
            next_page_address
        } else {
            if always {
                self.read(same_page_address);
            }
            same_page_address
        }
    }

    pub fn fetch_absolute_x_read(&mut self) -> (address: u16)
        requires
            old(self).ready(3),
        ensures
            final(self).wf(),
            final(self).cycle <= old(self).cycle + 3,
            (final(self)@, address) == Self::effective_address(
                old(self)@,
                AddressingMode::AbsoluteX,
                false,
            ),
    {
        let bal = self.fetch();
        let bah = self.fetch();
        self.fetch_indexed(bah, bal, self.registers.x, false)
    }

    pub fn fetch_absolute_x_write(&mut self) -> (address: u16)
        requires
            old(self).ready(3),
        ensures
            final(self).wf(),
            final(self).cycle == old(self).cycle + 3,
            (final(self)@, address) == Self::effective_address(
                old(self)@,
                AddressingMode::AbsoluteX,
                true,
            ),
    {
        let bal = self.fetch();
        let bah = self.fetch();
        self.fetch_indexed(bah, bal, self.registers.x, true)
    }

    pub fn fetch_absolute_y_read(&mut self) -> (address: u16)
        requires
            old(self).ready(3),
        ensures
            final(self).wf(),
            final(self).cycle <= old(self).cycle + 3,
            (final(self)@, address) == Self::effective_address(
                old(self)@,
                AddressingMode::AbsoluteY,
                false,
            ),
    {
        let bal = self.fetch();
        let bah = self.fetch();
        self.fetch_indexed(bah, bal, self.registers.y, false)
    }

    pub fn fetch_absolute_y_write(&mut self) -> (address: u16)
        requires
            old(self).ready(3),
        ensures
            final(self).wf(),
            final(self).cycle == old(self).cycle + 3,
            (final(self)@, address) == Self::effective_address(
                old(self)@,
                AddressingMode::AbsoluteY,
                true,
            ),
    {
        let bal = self.fetch();
        let bah = self.fetch();
        self.fetch_indexed(bah, bal, self.registers.y, true)
    }

    pub fn fetch_zero_page(&mut self) -> (address: u16)
        requires
            old(self).ready(1),
        ensures
            final(self).wf(),
            final(self).cycle == old(self).cycle + 1,
            address <= 0x00ff,
            (final(self)@, address) == Self::effective_address(
                old(self)@,
                AddressingMode::ZeroPage,
                false,
            ),
            (final(self)@, address) == Self::effective_address(
                old(self)@,
                AddressingMode::ZeroPage,
                true,
            ),
    {
        let adl = self.fetch();
        make_word(0x00, adl)
    }

    pub fn fetch_zero_page_x(&mut self) -> (address: u16)
        requires
            old(self).ready(2),
        ensures
            final(self).wf(),
            final(self).cycle == old(self).cycle + 2,
            address <= 0x00ff,
            (final(self)@, address) == Self::effective_address(
                old(self)@,
                AddressingMode::ZeroPageX,
                false,
            ),
            (final(self)@, address) == Self::effective_address(
                old(self)@,
                AddressingMode::ZeroPageX,
                true,
            ),
    {
        let bal = self.fetch();
        self.read(make_word(0x00, bal));
        let bal_x = add8(bal, self.registers.x);
        make_word(0x00, bal_x)
    }

    pub fn fetch_zero_page_y(&mut self) -> (address: u16)
        requires
            old(self).ready(2),
        ensures
            final(self).wf(),
            final(self).cycle == old(self).cycle + 2,
            address <= 0x00ff,
            (final(self)@, address) == Self::effective_address(
                old(self)@,
                AddressingMode::ZeroPageY,
                false,
            ),
            (final(self)@, address) == Self::effective_address(
                old(self)@,
                AddressingMode::ZeroPageY,
                true,
            ),
    {
        let bal = self.fetch();
        self.read(make_word(0x00, bal));
        let bal_y = add8(bal, self.registers.y);
        make_word(0x00, bal_y)
    }

    pub fn fetch_indirect_x(&mut self) -> (address: u16)
        requires
            old(self).ready(4),
        ensures
            final(self).wf(),
            final(self).cycle == old(self).cycle + 4,
            (final(self)@, address) == Self::effective_address(
                old(self)@,
                AddressingMode::IndirectZeroPageX,
                false,
            ),
            (final(self)@, address) == Self::effective_address(
                old(self)@,
                AddressingMode::IndirectZeroPageX,
                true,
            ),
    {
        let bal = self.fetch();
        self.read(make_word(0x00, bal));
        let bal_x = add8(bal, self.registers.x);
        let bal_x_1 = add8(bal_x, 1);
        let adl = self.read(make_word(0x00, bal_x));
        let adh = self.read(make_word(0x00, bal_x_1));
        make_word(adh, adl)
    }

    pub fn fetch_indirect_y_read(&mut self) -> (address: u16)
        requires
            old(self).ready(4),
        ensures
            final(self).wf(),
            final(self).cycle <= old(self).cycle + 4,
            (final(self)@, address) == Self::effective_address(
                old(self)@,
                AddressingMode::IndirectZeroPageY,
                false,
            ),
    {
        let ial = self.fetch();
        let ial_1 = add8(ial, 1);
        let bal = self.read(make_word(0x00, ial));
        let bah = self.read(make_word(0x00, ial_1));
        self.fetch_indexed(bah, bal, self.registers.y, false)
    }

    pub fn fetch_indirect_y_write(&mut self) -> (address: u16)
        requires
            old(self).ready(4),
        ensures
            final(self).wf(),
            final(self).cycle == old(self).cycle + 4,
            (final(self)@, address) == Self::effective_address(
                old(self)@,
                AddressingMode::IndirectZeroPageY,
                true,
            ),
    {
        let ial = self.fetch();
        let ial_1 = add8(ial, 1);
        let bal = self.read(make_word(0x00, ial));
        let bah = self.read(make_word(0x00, ial_1));
        self.fetch_indexed(bah, bal, self.registers.y, true)
    }
}

} // verus!
