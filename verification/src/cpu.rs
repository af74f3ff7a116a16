use crate::alu::{make_word, word, wrap16, wrap8};
use crate::bus::Bus;
use crate::status::Status;
use vstd::prelude::*;

pub mod access;
pub mod addressing;
pub mod control;
pub mod operations;
pub mod step;
pub mod trace;

verus! {

/// The registers of the processor.
#[derive(Debug, Clone, Copy, PartialEq, Eq, Structural)]
pub struct Registers {
    /// Program counter
    pub pc: u16,
    /// Stack pointer
    pub sp: u8,
    /// Processor status
    pub ps: Status,
    /// Accumulator
    pub a: u8,
    /// X index
    pub x: u8,
    /// Y index
    pub y: u8,
}

impl Registers {
    /// The registers at power-on: only the hardwired status bit is set, and
    /// the stack pointer is at the top of its page.
    pub open spec fn power_on() -> Registers {
        Registers {
            pc: 0x0000,
            sp: 0xff,
            ps: Status {
                carry: false,
                zero_result: false,
                interrupt_disable: false,
                decimal_mode: false,
                break_command: false,
                unused: true,
                overflow: false,
                negative_result: false,
            },
            a: 0x00,
            x: 0x00,
            y: 0x00,
        }
    }
}

impl Default for Registers {
    fn default() -> (registers: Registers)
        ensures
            registers == Registers::power_on(),
            registers.ps.packed() == 0x20,
    {
        Registers {
            pc: 0x0000,
            sp: 0xff,
            ps: Status::from_bits_truncate(0x20),
            a: 0x00,
            x: 0x00,
            y: 0x00,
        }
    }
}

/// The processor with the bus that it drives.
#[derive(Debug, Clone)]
pub struct Cpu<B: Bus> {
    pub bus: B,
    pub registers: Registers,
    /// Bus cycles since power-on: every bus access of an instruction costs one.
    pub cycle: u64,
}

/// The processor as the contracts see it: the abstract state of the bus, the
/// registers and the cycle count.
pub struct State<M> {
    pub bus: M,
    pub registers: Registers,
    pub cycle: nat,
}

/// The first address of the stack page.
pub const STACK_BASE: u16 = 0x0100;

/// Where the reset vector lies.
pub const RESET_VECTOR: u16 = 0xfffc;

/// Where the vector of BRK lies.
pub const BREAK_VECTOR: u16 = 0xfffe;

/// The cycle count that a reset leaves, for the power-on delay.
pub const RESET_CYCLES: u64 = 8;

impl<B: Bus> View for Cpu<B> {
    type V = State<B::Model>;

    open spec fn view(&self) -> State<B::Model> {
        State { bus: self.bus.model(), registers: self.registers, cycle: self.cycle as nat }
    }
}

impl<B: Bus> Cpu<B> {
    /// The bus is in order and the hardwired status bit is set.
    pub open spec fn wf(&self) -> bool {
        self.bus.wf() && self.registers.ps.unused
    }

    /// Well-formed, with room for `cycles` more bus cycles in the counter.
    pub open spec fn ready(&self, cycles: int) -> bool {
        self.wf() && self.cycle + cycles <= u64::MAX
    }

    /// One counted bus read.
    pub open spec fn bus_read(s: State<B::Model>, address: u16) -> (State<B::Model>, u8) {
        (
            State { bus: B::after_read(s.bus, address), cycle: s.cycle + 1, ..s },
            B::read_value(s.bus, address),
        )
    }

    /// One counted bus write.
    pub open spec fn bus_write(s: State<B::Model>, address: u16, data: u8) -> State<B::Model> {
        State { bus: B::after_write(s.bus, address, data), cycle: s.cycle + 1, ..s }
    }

    /// A read at the program counter, which then moves on by one.
    pub open spec fn next_byte(s: State<B::Model>) -> (State<B::Model>, u8) {
        let (s1, data) = Self::bus_read(s, s.registers.pc);
        (
            State { registers: Registers { pc: wrap16(s.registers.pc + 1), ..s.registers }, ..s1 },
            data,
        )
    }

    /// A read at the program counter whose byte is dropped.
    pub open spec fn dummy_read(s: State<B::Model>) -> State<B::Model> {
        Self::bus_read(s, s.registers.pc).0
    }

    /// The address of the top of the stack: the stack page at offset SP.
    pub open spec fn stack_top(s: State<B::Model>) -> u16 {
        word(0x01, s.registers.sp)
    }

    /// A push: a write to the top of the stack, after which SP steps down
    /// modulo 256.
    pub open spec fn pushed(s: State<B::Model>, data: u8) -> State<B::Model> {
        let s1 = Self::bus_write(s, Self::stack_top(s), data);
        State { registers: Registers { sp: wrap8(s.registers.sp - 1), ..s.registers }, ..s1 }
    }

    /// A pull: SP steps up modulo 256, then the new top of the stack is read.
    pub open spec fn pulled(s: State<B::Model>) -> (State<B::Model>, u8) {
        let s1 = State {
            registers: Registers { sp: wrap8(s.registers.sp + 1), ..s.registers },
            ..s
        };
        Self::bus_read(s1, Self::stack_top(s1))
    }

    /// The state after a reset: the program counter comes from the reset
    /// vector, low byte first, by two uncounted bus reads; the cycle count is
    /// seeded; the other registers stay.
    pub open spec fn after_reset(s: State<B::Model>) -> State<B::Model> {
        let low_byte = B::read_value(s.bus, RESET_VECTOR);
        let bus1 = B::after_read(s.bus, RESET_VECTOR);
        let high_byte = B::read_value(bus1, 0xfffd);
        let bus2 = B::after_read(bus1, 0xfffd);
        State {
            bus: bus2,
            registers: Registers { pc: word(high_byte, low_byte), ..s.registers },
            cycle: RESET_CYCLES as nat,
        }
    }

    /// A processor at power-on around `bus`.
    pub fn new(bus: B) -> (cpu: Cpu<B>)
        requires
            bus.wf(),
        ensures
            cpu.wf(),
            cpu.bus == bus,
            cpu.registers == Registers::power_on(),
            cpu.cycle == 0,
    {
        Cpu { bus, registers: Default::default(), cycle: 0 }
    }

    pub fn reset(&mut self)
        requires
            old(self).wf(),
        ensures
            final(self).wf(),
            final(self)@ == Self::after_reset(old(self)@),
    {
        let pcl = self.bus.read(RESET_VECTOR);
        let pch = self.bus.read(0xfffd);
        self.registers.pc = make_word(pch, pcl);
        self.cycle = RESET_CYCLES;
    }
}

} // verus!
