use crate::alu::{add16, add8, lemma_sign_overflow_bits, previous8, sign_overflow};
use crate::bus::Bus;
use crate::cpu::{Cpu, Registers, STACK_BASE};
use crate::status::Status;
use vstd::prelude::*;

verus! {

impl<B: Bus> Cpu<B> {
    pub fn get_negative_result_flag(&self) -> (flag: bool)
        ensures
            flag == self.registers.ps.negative_result,
    {
        self.registers.ps.negative_result
    }

    pub fn set_negative_result_flag(&mut self, value: bool)
        ensures
            *final(self) == (Cpu {
                registers: Registers {
                    ps: Status { negative_result: value, ..old(self).registers.ps },
                    ..old(self).registers
                },
                ..*old(self)
            }),
    {
        self.registers.ps.negative_result = value;
    }

    /// Sets the negative flag exactly when bit 7 of `value` is set.
    pub fn set_negative_result_flag_for_value(&mut self, value: u8)
        ensures
            *final(self) == (Cpu {
                registers: Registers {
                    ps: Status { negative_result: value >= 0x80, ..old(self).registers.ps },
                    ..old(self).registers
                },
                ..*old(self)
            }),
    {
        let is_negative = value >= 0x80;
        self.registers.ps.negative_result = is_negative;
    }

    pub fn get_zero_result_flag(&self) -> (flag: bool)
        ensures
            flag == self.registers.ps.zero_result,
    {
        self.registers.ps.zero_result
    }

    pub fn set_zero_result_flag(&mut self, value: bool)
        ensures
            *final(self) == (Cpu {
                registers: Registers {
                    ps: Status { zero_result: value, ..old(self).registers.ps },
                    ..old(self).registers
                },
                ..*old(self)
            }),
    {
        self.registers.ps.zero_result = value;
    }

    /// Sets the zero flag exactly when `value` is 0.
    pub fn set_zero_result_flag_for_value(&mut self, value: u8)
        ensures
            *final(self) == (Cpu {
                registers: Registers {
                    ps: Status { zero_result: value == 0, ..old(self).registers.ps },
                    ..old(self).registers
                },
                ..*old(self)
            }),
    {
        let is_zero = value == 0;
        self.registers.ps.zero_result = is_zero;
    }

    pub fn get_carry_flag(&self) -> (flag: bool)
        ensures
            flag == self.registers.ps.carry,
    {
        self.registers.ps.carry
    }

    pub fn set_carry_flag(&mut self, value: bool)
        ensures
            *final(self) == (Cpu {
                registers: Registers {
                    ps: Status { carry: value, ..old(self).registers.ps },
                    ..old(self).registers
                },
                ..*old(self)
            }),
    {
        self.registers.ps.carry = value;
    }

    pub fn get_overflow_flag(&self) -> (flag: bool)
        ensures
            flag == self.registers.ps.overflow,
    {
        self.registers.ps.overflow
    }

    pub fn set_overflow_flag(&mut self, value: bool)
        ensures
            *final(self) == (Cpu {
                registers: Registers {
                    ps: Status { overflow: value, ..old(self).registers.ps },
                    ..old(self).registers
                },
                ..*old(self)
            }),
    {
        self.registers.ps.overflow = value;
    }

    /// Sets the overflow flag exactly when both inputs of an addition differ
    /// in sign from its result.
    pub fn set_overflow_flag_for_result(&mut self, in_a: u8, in_b: u8, result: u8)
        ensures
            *final(self) == (Cpu {
                registers: Registers {
                    ps: Status {
                        overflow: sign_overflow(in_a, in_b, result),
                        ..old(self).registers.ps
                    },
                    ..old(self).registers
                },
                ..*old(self)
            }),
    {
        proof {
            lemma_sign_overflow_bits(in_a, in_b, result);
        }
        let did_overflow = (in_a ^ result) & (in_b ^ result) & 0x80 == 0x80;
        self.registers.ps.overflow = did_overflow;
    }

    pub fn get_interrupt_disable_flag(&self) -> (flag: bool)
        ensures
            flag == self.registers.ps.interrupt_disable,
    {
        self.registers.ps.interrupt_disable
    }

    pub fn set_interrupt_disable_flag(&mut self, value: bool)
        ensures
            *final(self) == (Cpu {
                registers: Registers {
                    ps: Status { interrupt_disable: value, ..old(self).registers.ps },
                    ..old(self).registers
                },
                ..*old(self)
            }),
    {
        self.registers.ps.interrupt_disable = value;
    }

    pub fn set_decimal_mode_flag(&mut self, value: bool)
        ensures
            *final(self) == (Cpu {
                registers: Registers {
                    ps: Status { decimal_mode: value, ..old(self).registers.ps },
                    ..old(self).registers
                },
                ..*old(self)
            }),
    {
        self.registers.ps.decimal_mode = value;
    }

    pub fn stack_address(&self) -> (address: u16)
        ensures
            address == Self::stack_top(self@),
            0x0100 <= address <= 0x01ff,
    {
        STACK_BASE + self.registers.sp as u16
    }

    pub fn push(&mut self, data: u8)
        requires
            old(self).ready(1),
        ensures
            final(self).wf(),
            final(self)@ == Self::pushed(old(self)@, data),
    {
        let address = self.stack_address();
        self.registers.sp = previous8(self.registers.sp);
        self.write(address, data)
    }

    pub fn pull(&mut self) -> (data: u8)
        requires
            old(self).ready(1),
        ensures
            final(self).wf(),
            (final(self)@, data) == Self::pulled(old(self)@),
    {
        self.registers.sp = add8(self.registers.sp, 1);
        let address = self.stack_address();
        self.read(address)
    }

    pub fn fetch(&mut self) -> (data: u8)
        requires
            old(self).ready(1),
        ensures
            final(self).wf(),
            (final(self)@, data) == Self::next_byte(old(self)@),
    {
        let data = self.read(self.registers.pc);
        self.registers.pc = add16(self.registers.pc, 1);
        data
    }

    pub fn read(&mut self, address: u16) -> (data: u8)
        requires
            old(self).ready(1),
        ensures
            final(self).wf(),
            (final(self)@, data) == Self::bus_read(old(self)@, address),
    {
        self.cycle += 1;
        self.bus.read(address)
    }

    pub fn write(&mut self, address: u16, data: u8)
        requires
            old(self).ready(1),
        ensures
            final(self).wf(),
            final(self)@ == Self::bus_write(old(self)@, address, data),
    {
        self.cycle += 1;
        self.bus.write(address, data)
    }
}

} // verus!
