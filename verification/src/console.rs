use crate::addressing_mode::{mode_of, AddressingMode};
use crate::bus::{range_len, read_range, reads_of, Bus};
use crate::cpu::{Cpu, Registers, State};
use crate::error::Error;
use crate::mapper::{loaded, Cartridge, CartridgeModel, Mapper};
use crate::ppu::Ppu;
use vstd::prelude::*;

verus! {

/// The size of the work RAM and of the video RAM: 2 kB.
pub const RAM_SIZE: usize = 2048;

/// The bus under the processor: work RAM, the PPU's registers, the APU and
/// I/O window, and the cartridge.
///
/// Both buses reach the one cartridge. It lives with the PPU's bus, and the
/// processor's bus goes through the PPU to it, so that what one side writes
/// is what the other side reads.
#[derive(Debug, Clone)]
pub struct CpuBus {
    wram: Vec<u8>,
    ppu: Ppu<PpuBus>,
}

/// What a read of the processor's bus depends on: the work RAM and the
/// cartridge.
pub struct CpuBusModel {
    pub wram: Seq<u8>,
    pub mapper: CartridgeModel,
}

impl CpuBusModel {
    /// A read: work RAM, mirrored every 2 kB, at `$0000..=$1FFF`; 0 from the
    /// PPU's registers at `$2000..=$3FFF` and from the APU and I/O window at
    /// `$4000..=$401F`; the cartridge from `$4020` on.
    pub open spec fn read_value(self, address: u16) -> u8 {
        if address <= 0x1fff {
            self.wram[address as int % 0x0800]
        } else if address <= 0x401f {
            0
        } else {
            Cartridge::cpu_value(self.mapper, address)
        }
    }

    /// A write: a store to work RAM at `$0000..=$1FFF`; dropped in the PPU's
    /// and the APU's windows; handed to the cartridge from `$4020` on.
    pub open spec fn after_write(self, address: u16, data: u8) -> CpuBusModel {
        if address <= 0x1fff {
            CpuBusModel { wram: self.wram.update(address as int % 0x0800, data), ..self }
        } else if address <= 0x401f {
            self
        } else {
            CpuBusModel { mapper: Cartridge::after_cpu_write(self.mapper, address, data), ..self }
        }
    }
}

impl CpuBus {
    /// A bus around `mapper`, with zeroed work RAM.
    pub fn new(mapper: Cartridge) -> (bus: CpuBus)
        requires
            mapper.wf(),
        ensures
            bus.wf(),
            bus.model() == (CpuBusModel {
                wram: Seq::new(RAM_SIZE as nat, |i: int| 0u8),
                mapper: mapper.model(),
            }),
    {
        let wram = vec![0u8; RAM_SIZE];
        assert(wram@ =~= Seq::new(RAM_SIZE as nat, |i: int| 0u8));
        CpuBus { wram, ppu: Ppu::new(PpuBus::new(mapper)) }
    }

    /// Reads the PPU's bus at `address`: the way from the console to the
    /// cartridge's pattern tables.
    pub fn ppu_bus_read(&mut self, address: u16) -> (data: u8)
        requires
            old(self).wf(),
        ensures
            final(self).wf(),
            final(self).model() == old(self).model(),
            data == if address <= 0x1fff {
                Cartridge::ppu_value(old(self).model().mapper, address)
            } else {
                0
            },
    {
        self.ppu.bus.read(address)
    }

    /// Lets the PPU run for one step of the processor.
    pub fn step_ppu(&mut self)
        ensures
            *final(self) == *old(self),
    {
        self.ppu.step();
    }
}

impl Bus for CpuBus {
    type Model = CpuBusModel;

    closed spec fn model(&self) -> CpuBusModel {
        CpuBusModel { wram: self.wram@, mapper: self.ppu.bus.mapper.model() }
    }

    closed spec fn wf(&self) -> bool {
        self.wram@.len() == RAM_SIZE && self.ppu.bus.mapper.wf()
    }

    open spec fn read_value(m: CpuBusModel, address: u16) -> u8 {
        m.read_value(address)
    }

    open spec fn after_read(m: CpuBusModel, address: u16) -> CpuBusModel {
        m
    }

    open spec fn after_write(m: CpuBusModel, address: u16, data: u8) -> CpuBusModel {
        m.after_write(address, data)
    }

    fn read(&mut self, address: u16) -> (data: u8) {
        if address <= 0x1fff {
            // 2 kB work RAM
            let index = address as usize % self.wram.len();
            self.wram[index]
        } else if address <= 0x3fff {
            // PPU
            self.ppu.read(address)
        } else if address <= 0x401f {
            // APU and I/O
            0
        } else {
            // Cartridge
            self.ppu.bus.mapper.cpu_read(address)
        }
    }

    fn write(&mut self, address: u16, data: u8) {
        if address <= 0x1fff {
            // 2 kB RAM
            let index = address as usize % self.wram.len();
            self.wram.set(index, data);
        } else if address <= 0x3fff {
            // PPU
            self.ppu.write(address, data);
        } else if address <= 0x401f {
            // APU and I/O
        } else {
            // Cartridge
            self.ppu.bus.mapper.cpu_write(address, data);
        }
    }

    fn peek(&self, address: u16) -> (data: u8) {
        if address <= 0x1fff {
            let index = address as usize % self.wram.len();
            self.wram[index]
        } else if address <= 0x401f {
            0
        } else {
            self.ppu.bus.mapper.cpu_peek(address)
        }
    }
}

/// The bus under the PPU: the cartridge's pattern tables at
/// `$0000..=$1FFF`. Nothing else is mapped on it yet: every other read gives
/// 0 and every other write is dropped.
#[derive(Debug, Clone)]
pub struct PpuBus {
    vram: Vec<u8>,
    mapper: Cartridge,
}

/// What a read of the PPU's bus depends on: the video RAM and the
/// cartridge.
pub struct PpuBusModel {
    pub vram: Seq<u8>,
    pub mapper: CartridgeModel,
}

impl PpuBusModel {
    /// A read: the cartridge at `$0000..=$1FFF`, 0 elsewhere.
    pub open spec fn read_value(self, address: u16) -> u8 {
        if address <= 0x1fff {
            Cartridge::ppu_value(self.mapper, address)
        } else {
            0
        }
    }

    /// A write: handed to the cartridge at `$0000..=$1FFF`, dropped
    /// elsewhere.
    pub open spec fn after_write(self, address: u16, data: u8) -> PpuBusModel {
        if address <= 0x1fff {
            PpuBusModel { mapper: Cartridge::after_ppu_write(self.mapper, address, data), ..self }
        } else {
            self
        }
    }
}

impl PpuBus {
    /// A bus around `mapper`, with zeroed video RAM.
    pub fn new(mapper: Cartridge) -> (bus: PpuBus)
        requires
            mapper.wf(),
        ensures
            bus.wf(),
            bus.model() == (PpuBusModel {
                vram: Seq::new(RAM_SIZE as nat, |i: int| 0u8),
                mapper: mapper.model(),
            }),
    {
        let vram = vec![0u8; RAM_SIZE];
        assert(vram@ =~= Seq::new(RAM_SIZE as nat, |i: int| 0u8));
        PpuBus { vram, mapper }
    }
}

impl Bus for PpuBus {
    type Model = PpuBusModel;

    closed spec fn model(&self) -> PpuBusModel {
        PpuBusModel { vram: self.vram@, mapper: self.mapper.model() }
    }

    closed spec fn wf(&self) -> bool {
        self.mapper.wf()
    }

    open spec fn read_value(m: PpuBusModel, address: u16) -> u8 {
        m.read_value(address)
    }

    open spec fn after_read(m: PpuBusModel, address: u16) -> PpuBusModel {
        m
    }

    open spec fn after_write(m: PpuBusModel, address: u16, data: u8) -> PpuBusModel {
        m.after_write(address, data)
    }

    fn read(&mut self, address: u16) -> (data: u8) {
        if address <= 0x1fff {
            self.mapper.ppu_read(address)
        } else {
            0
        }
    }

    fn write(&mut self, address: u16, data: u8) {
        if address <= 0x1fff {
            self.mapper.ppu_write(address, data);
        }
    }

    fn peek(&self, address: u16) -> (data: u8) {
        if address <= 0x1fff {
            self.mapper.ppu_peek(address)
        } else {
            0
        }
    }
}

/// The console: the processor on its bus, with the cartridge and the PPU
/// behind it.
#[derive(Debug, Clone)]
pub struct Console {
    pub cpu: Cpu<CpuBus>,
}

impl View for Console {
    type V = State<CpuBusModel>;

    open spec fn view(&self) -> State<CpuBusModel> {
        self.cpu@
    }
}

impl Console {
    /// The processor and its bus are in order.
    pub open spec fn wf(&self) -> bool {
        self.cpu.wf()
    }

    /// The console at power-on with the cartridge that the ROM image `bytes`
    /// holds, or the reason why the image cannot be loaded.
    pub fn from_bytes(bytes: &[u8]) -> (outcome: Result<Console, Error>)
        ensures
            match outcome {
                Ok(console) => {
                    &&& console.wf()
                    &&& loaded(bytes@) == Ok::<CartridgeModel, Error>(console@.bus.mapper)
                    &&& console@.bus.wram == Seq::new(RAM_SIZE as nat, |i: int| 0u8)
                    &&& console@.registers == Registers::power_on()
                    &&& console@.cycle == 0
                },
                Err(error) => loaded(bytes@) == Err::<CartridgeModel, Error>(error),
            },
    {
        let mapper = match Cartridge::from_bytes(bytes) {
            Ok(mapper) => mapper,
            Err(error) => {
                return Err(error);
            },
        };
        let cpu_bus = CpuBus::new(mapper);
        let cpu = Cpu::new(cpu_bus);
        Ok(Console { cpu })
    }

    /// Reads the addresses `start..=end` from the processor's bus, in
    /// ascending order, without counting cycles.
    pub fn read_range(&mut self, start: u16, end: u16) -> (bytes: Vec<u8>)
        requires
            old(self).wf(),
        ensures
            final(self).wf(),
            bytes@ == reads_of::<CpuBus>(old(self)@.bus, start, range_len(start, end)).1,
            final(self)@ == (State {
                bus: reads_of::<CpuBus>(old(self)@.bus, start, range_len(start, end)).0,
                ..old(self)@
            }),
    {
        read_range(&mut self.cpu.bus, start, end)
    }

    pub fn reset(&mut self)
        requires
            old(self).wf(),
        ensures
            final(self).wf(),
            final(self)@ == Cpu::<CpuBus>::after_reset(old(self)@),
    {
        self.cpu.reset();
    }

    /// Runs one instruction and returns its trace line; see `Cpu::step`.
    pub fn step(&mut self) -> (outcome: Result<String, Error>)
        requires
            old(self).cpu.ready(7),
        ensures
            final(self).wf(),
            match outcome {
                Ok(line) => {
                    &&& line@ == Cpu::<CpuBus>::trace_line(old(self)@)
                    &&& final(self)@ == Cpu::<CpuBus>::stepped(old(self)@)
                    &&& old(self)@.cycle + 2 <= final(self)@.cycle <= old(self)@.cycle + 7
                },
                Err(error) => {
                    &&& error == (Error::UnimplementedOpcode {
                        opcode: Cpu::<CpuBus>::next_opcode(old(self)@),
                        pc: old(self)@.registers.pc,
                    })
                    &&& final(self)@ == old(self)@
                },
            },
            outcome.is_ok() <==> mode_of(Cpu::<CpuBus>::next_opcode(old(self)@))
                != AddressingMode::Unimplemented,
    {
        let outcome = self.cpu.step();
        self.cpu.bus.step_ppu();
        outcome
    }
}

} // verus!
