use crate::mapper::Mapper;
use vstd::prelude::*;

verus! {

/// Mapper 0: up to 32 KiB of PRG-ROM, 8 KiB of PRG-RAM and 8 KiB of CHR-ROM,
/// without banking.
#[derive(Debug, Clone)]
pub struct Nrom {
    prg_rom: Vec<u8>,
    prg_ram: Vec<u8>,
    chr_rom: Vec<u8>,
}

/// What an NROM cartridge holds.
pub struct NromModel {
    pub prg_rom: Seq<u8>,
    pub prg_ram: Seq<u8>,
    pub chr_rom: Seq<u8>,
}

/// The size of the PRG-RAM.
pub const PRG_RAM_SIZE: usize = 8192;

/// The sizes that an NROM cartridge can have: 16 or 32 KiB of PRG-ROM and
/// 8 KiB of CHR-ROM.
pub open spec fn nrom_sizes(prg_rom: nat, chr_rom: nat) -> bool {
    (prg_rom == 16384 || prg_rom == 32768) && chr_rom == 8192
}

impl NromModel {
    /// A CPU read: PRG-RAM at `$6000..=$7FFF`, PRG-ROM at `$8000..=$FFFF`
    /// (mirrored where it is shorter than the window), 0 elsewhere.
    pub open spec fn cpu_value(self, address: u16) -> u8 {
        if 0x6000 <= address <= 0x7fff {
            self.prg_ram[address as int % self.prg_ram.len() as int]
        } else if 0x8000 <= address {
            self.prg_rom[address as int % self.prg_rom.len() as int]
        } else {
            0
        }
    }

    /// A CPU write: a store to PRG-RAM at `$6000..=$7FFF`, dropped elsewhere.
    pub open spec fn after_cpu_write(self, address: u16, data: u8) -> NromModel {
        if 0x6000 <= address <= 0x7fff {
            NromModel {
                prg_ram: self.prg_ram.update(address as int % self.prg_ram.len() as int, data),
                ..self
            }
        } else {
            self
        }
    }

    /// A PPU read: CHR-ROM at `$0000..=$1FFF`, 0 elsewhere.
    pub open spec fn ppu_value(self, address: u16) -> u8 {
        if address <= 0x1fff {
            self.chr_rom[address as int % self.chr_rom.len() as int]
        } else {
            0
        }
    }
}

impl View for Nrom {
    type V = NromModel;

    closed spec fn view(&self) -> NromModel {
        NromModel { prg_rom: self.prg_rom@, prg_ram: self.prg_ram@, chr_rom: self.chr_rom@ }
    }
}

impl Nrom {
    /// A cartridge with the given ROMs and zeroed PRG-RAM.
    pub fn new(prg_rom: Vec<u8>, chr_rom: Vec<u8>) -> (nrom: Nrom)
        requires
            nrom_sizes(prg_rom@.len(), chr_rom@.len()),
        ensures
            nrom.wf(),
            nrom@.prg_rom == prg_rom@,
            nrom@.chr_rom == chr_rom@,
            nrom@.prg_ram == Seq::new(PRG_RAM_SIZE as nat, |i: int| 0u8),
    {
        let prg_ram = vec![0u8; PRG_RAM_SIZE];
        assert(prg_ram@ =~= Seq::new(PRG_RAM_SIZE as nat, |i: int| 0u8));
        Nrom { prg_rom, chr_rom, prg_ram }
    }
}

impl Mapper for Nrom {
    type Model = NromModel;

    open spec fn model(&self) -> NromModel {
        self@
    }

    closed spec fn wf(&self) -> bool {
        nrom_sizes(self.prg_rom@.len(), self.chr_rom@.len()) && self.prg_ram@.len() == PRG_RAM_SIZE
    }

    open spec fn number(m: NromModel) -> u8 {
        0
    }

    open spec fn cpu_value(m: NromModel, address: u16) -> u8 {
        m.cpu_value(address)
    }

    open spec fn after_cpu_read(m: NromModel, address: u16) -> NromModel {
        m
    }

    open spec fn after_cpu_write(m: NromModel, address: u16, data: u8) -> NromModel {
        m.after_cpu_write(address, data)
    }

    open spec fn ppu_value(m: NromModel, address: u16) -> u8 {
        m.ppu_value(address)
    }

    open spec fn after_ppu_read(m: NromModel, address: u16) -> NromModel {
        m
    }

    open spec fn after_ppu_write(m: NromModel, address: u16, data: u8) -> NromModel {
        m
    }

    fn id(&self) -> (id: u8) {
        0
    }

    fn cpu_read(&mut self, address: u16) -> (data: u8) {
        if 0x6000 <= address && address <= 0x7fff {
            let index = address as usize % self.prg_ram.len();
            self.prg_ram[index]
        } else if 0x8000 <= address {
            let index = address as usize % self.prg_rom.len();
            self.prg_rom[index]
        } else {
            0
        }
    }

    fn cpu_write(&mut self, address: u16, data: u8) {
        if 0x6000 <= address && address <= 0x7fff {
            let index = address as usize % self.prg_ram.len();
            self.prg_ram.set(index, data);
        }
    }

    fn ppu_read(&mut self, address: u16) -> (data: u8) {
        self.ppu_peek(address)
    }

    fn ppu_write(&mut self, _address: u16, _data: u8) {
    }
}

impl Nrom {
    /// Looks at the byte a PPU read of `address` would return.
    pub fn ppu_peek(&self, address: u16) -> (data: u8)
        requires
            self.wf(),
        ensures
            data == self.model().ppu_value(address),
    {
        if address <= 0x1fff {
            let index = address as usize % self.chr_rom.len();
            self.chr_rom[index]
        } else {
            0
        }
    }

    /// Looks at the byte a CPU read of `address` would return.
    pub fn cpu_peek(&self, address: u16) -> (data: u8)
        requires
            self.wf(),
        ensures
            data == self.model().cpu_value(address),
    {
        if 0x6000 <= address && address <= 0x7fff {
            let index = address as usize % self.prg_ram.len();
            self.prg_ram[index]
        } else if 0x8000 <= address {
            let index = address as usize % self.prg_rom.len();
            self.prg_rom[index]
        } else {
            0
        }
    }
}

} // verus!
